//! Multi-monitor interactive region selection: the virtual-desktop model, the
//! selection state machine with modifier-key shaping, frame pacing and redraw
//! throttling, derived background images, software rendering of the overlay,
//! and the session orchestrator that turns window events into actions.

pub mod geometry;
pub mod selection;
pub mod events;
pub mod pacing;
pub mod desktop;
pub mod background;
pub mod backend;
pub mod session;
pub mod platform;
pub mod selector;
pub mod error;
pub mod lru;
pub mod metrics;
pub mod raster;
pub mod canvas;
pub mod render;
