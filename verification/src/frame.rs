//! The per-frame command sequence: what one redraw records, and the
//! outcome of acquiring the next presentable frame.

use vstd::prelude::*;

verus! {

/// Outcome of acquiring the next presentable frame from the surface, as
/// reported by the platform collaborator that performs the acquisition.
#[derive(Clone, Copy, PartialEq, Eq, Structural, Debug)]
pub enum AcquireOutcome {
    /// A frame was acquired and can be rendered and presented.
    Frame,
    /// The surface was lost; the acquired frame is unusable.
    Lost,
    /// The platform ran out of memory; fatal.
    OutOfMemory,
    /// Any other acquisition error; the frame is skipped.
    Other,
}

/// A clear color, each channel in thousandths of full intensity.
#[derive(Clone, Copy, PartialEq, Eq, Structural, Debug)]
pub struct ClearColor {
    pub red_milli: u32,
    pub green_milli: u32,
    pub blue_milli: u32,
    pub alpha_milli: u32,
}

/// The one command sequence a successful redraw records: a single render
/// pass with one color attachment bound to a full-image view of the
/// acquired frame, no resolve target and no depth-stencil attachment,
/// loaded by clearing to a fixed color and stored afterwards.
#[derive(Clone, Copy, PartialEq, Eq, Structural, Debug)]
pub struct FramePlan {
    /// The fixed color the attachment is cleared to on load.
    pub clear: ClearColor,
    /// Whether the attachment is stored (kept) after the pass.
    pub store: bool,
    /// Whether a resolve target is bound.
    pub has_resolve_target: bool,
    /// Whether a depth-stencil attachment is bound.
    pub has_depth_stencil: bool,
}

/// The fixed per-frame plan: clear to (0.100, 0.200, 0.000, 1.000), store
/// the result, no resolve target, no depth-stencil.
pub open spec fn spec_frame_plan() -> FramePlan {
    FramePlan {
        clear: ClearColor { red_milli: 100, green_milli: 200, blue_milli: 0, alpha_milli: 1000 },
        store: true,
        has_resolve_target: false,
        has_depth_stencil: false,
    }
}

/// Builds the fixed per-frame plan.
pub fn frame_plan() -> (plan: FramePlan)
    ensures
        plan == spec_frame_plan(),
{
    FramePlan {
        clear: ClearColor { red_milli: 100, green_milli: 200, blue_milli: 0, alpha_milli: 1000 },
        store: true,
        has_resolve_target: false,
        has_depth_stencil: false,
    }
}

} // verus!
