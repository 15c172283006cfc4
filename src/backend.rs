//! The render backend variants and the surface bookkeeping they share.
use vstd::prelude::*;

verus! {

/// The kinds of render backend.
#[derive(Debug, Clone, Copy, PartialEq, Eq, Structural)]
pub enum BackendType {
    /// Software rasterisation into an owned buffer.
    CpuRaster,
    /// Hardware-composited drawing on macOS.
    MetalGpu,
    /// Hardware-composited drawing on Windows.
    Direct3dGpu,
}

impl BackendType {
    /// Whether the backend draws on the GPU.
    pub fn is_gpu(self) -> (r: bool)
        ensures
            r == (self != BackendType::CpuRaster),
    {
        match self {
            BackendType::CpuRaster => false,
            _ => true,
        }
    }

    /// Whether a finished frame has to be copied to the window by a software blit
    /// (the CPU path); a GPU backend presents straight to the window's surface.
    pub fn needs_software_present(self) -> (r: bool)
        ensures
            r == (self == BackendType::CpuRaster),
    {
        match self {
            BackendType::CpuRaster => true,
            _ => false,
        }
    }
}

/// The drawing context kinds of a window's render context.
#[derive(Debug, Clone, Copy, PartialEq, Eq, Structural)]
pub enum Backend {
    Metal,
    GL,
    Cpu,
}

impl Backend {
    /// Whether the context is GPU accelerated.
    pub fn is_gpu_accelerated(self) -> (r: bool)
        ensures
            r == (self != Backend::Cpu),
    {
        match self {
            Backend::Cpu => false,
            _ => true,
        }
    }

    /// The context actually used when `self` was asked for: a GPU kind whose
    /// creation failed falls back to the CPU one.
    pub fn with_fallback(self, gpu_created: bool) -> (r: Backend)
        ensures
            r == if self == Backend::Cpu || !gpu_created {
                Backend::Cpu
            } else {
                self
            },
    {
        match self {
            Backend::Cpu => Backend::Cpu,
            _ => if gpu_created {
                self
            } else {
                Backend::Cpu
            },
        }
    }
}

/// The size of a backend's drawing surface and whether it must be rebuilt.
#[derive(Debug, Clone, Copy, PartialEq, Eq, Structural)]
pub struct SurfaceGeometry {
    pub width: i32,
    pub height: i32,
    pub dirty: bool,
}

impl SurfaceGeometry {
    /// The geometry of a surface just built at the given size.
    pub fn new(width: i32, height: i32) -> (r: SurfaceGeometry)
        ensures
            r == (SurfaceGeometry { width, height, dirty: false }),
    {
        SurfaceGeometry { width, height, dirty: false }
    }

    /// Records a new window size; the surface is rebuilt by the next `prepare_surface`.
    pub fn resize(&mut self, width: i32, height: i32)
        ensures
            *final(self) == (SurfaceGeometry { width, height, dirty: true }),
    {
        self.width = width;
        self.height = height;
        self.dirty = true;
    }

    /// Prepares drawing at the given size: returns whether the surface must be
    /// rebuilt, which is exactly when it was marked dirty or its size differs; an
    /// unchanged clean surface is reused.
    pub fn prepare_surface(&mut self, width: i32, height: i32) -> (rebuild: bool)
        ensures
            rebuild == (old(self).dirty || old(self).width != width || old(self).height != height),
            *final(self) == (SurfaceGeometry { width, height, dirty: false }),
    {
        let rebuild = self.dirty || self.width != width || self.height != height;
        self.width = width;
        self.height = height;
        self.dirty = false;
        rebuild
    }
}

} // verus!
