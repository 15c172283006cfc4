//! The error kinds of the screenshot toolkit.
use vstd::prelude::*;

verus! {

#[derive(Debug, Clone, Copy, PartialEq, Eq, Structural)]
pub enum ErrorKind {
    Permission,
    Capture,
    Unsupported,
    Io,
    Upload,
    OcrEmpty,
    OcrFail,
    PrivacyTooMuch,
    HookTimeout,
    HookFail,
    ConfigInvalid,
    Validation,
    Unknown,
}

impl ErrorKind {
    /// A short description of the kind.
    pub fn describe(self) -> (r: &'static str) {
        match self {
            ErrorKind::Permission => "permission denied",
            ErrorKind::Capture => "capture failed",
            ErrorKind::Unsupported => "unsupported operation",
            ErrorKind::Io => "io error",
            ErrorKind::Upload => "upload failed",
            ErrorKind::OcrEmpty => "ocr empty",
            ErrorKind::OcrFail => "ocr failed",
            ErrorKind::PrivacyTooMuch => "privacy too much hits",
            ErrorKind::HookTimeout => "hook timeout",
            ErrorKind::HookFail => "hook failed",
            ErrorKind::ConfigInvalid => "config invalid",
            ErrorKind::Validation => "validation error",
            ErrorKind::Unknown => "unknown error",
        }
    }
}

/// An error of a given kind with a message.
#[derive(Debug, Clone)]
pub struct Error {
    pub kind: ErrorKind,
    pub message: String,
}

impl Error {
    pub fn new(kind: ErrorKind, message: String) -> (r: Error)
        ensures
            r.kind == kind,
            r.message@ == message@,
    {
        Error { kind, message }
    }
}

/// How the bytes of a captured frame are ordered.
#[derive(Debug, Clone, Copy, PartialEq, Eq, Structural)]
pub enum PixelFormat {
    Bgra8,
    Rgba8,
}

/// How an arrow's shaft is drawn.
#[derive(Debug, Clone, Copy, PartialEq, Eq, Structural)]
pub enum LineStyle {
    Solid,
    Dashed,
}

/// How a highlight combines with what lies under it.
#[derive(Debug, Clone, Copy, PartialEq, Eq, Structural)]
pub enum BlendMode {
    Multiply,
    Screen,
}

} // verus!
