//! The closed error taxonomy of the surface host.

use vstd::prelude::*;

verus! {

/// Per-frame failure taxonomy for acquiring or presenting a frame. Each
/// variant maps to exactly one caller action.
#[derive(Clone, Copy, PartialEq, Eq, Structural, Debug)]
pub enum RenderError {
    /// The surface became invalid; the caller reconfigures it with the
    /// current size and continues. The failed frame is skipped.
    Lost,
    /// Fatal: the caller must terminate the process; no further frames are
    /// attempted.
    OutOfMemory,
    /// Any other platform error: the caller logs and continues; the frame
    /// is dropped and no state changes.
    Other,
}

/// Top-level error taxonomy: one variant per failure origin. The startup
/// variants are fatal and carry an opaque diagnostic supplied by the
/// platform collaborator; `Render` carries the per-frame taxonomy.
#[derive(PartialEq, Eq, Debug)]
pub enum GuiError {
    /// The platform could not create the window.
    InitializeWindow(String),
    /// The platform could not bind a presentation surface to the window.
    CreateSurface(String),
    /// The platform reported no adapter compatible with the surface.
    RequestAdapter,
    /// The platform rejected the device request.
    RequestDevice(String),
    /// A per-frame failure; see `RenderError` for the caller's action.
    Render(RenderError),
}

} // verus!
