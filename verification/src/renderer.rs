//! What a frame does with the outcome of acquiring the next surface texture.
//!
//! The caller acquires the texture, reconfigures the surface, draws and
//! presents; this module decides which of those comes next.

use vstd::prelude::*;

verus! {

/// The outcome of asking the surface for its next texture.
#[derive(Clone, Copy, Debug, PartialEq, Eq, Structural)]
pub enum SurfaceStatus {
    /// A texture was acquired.
    Acquired,
    /// The surface was lost.
    Lost,
    /// The surface no longer matches the window.
    Outdated,
    /// Any other error.
    Failed,
}

/// What the frame does next.
#[derive(Clone, Copy, Debug, PartialEq, Eq, Structural)]
pub enum FrameStep {
    /// Draw every object, submit and present.
    Draw,
    /// Reconfigure the surface and ask once more for a texture.
    ReconfigureAndRetry,
    /// Reconfigure the surface and skip this frame.
    ReconfigureAndSkip,
    /// Report the error and skip this frame.
    ReportAndSkip,
    /// Stop: no texture even after reconfiguring a lost surface.
    Abort,
}

/// The next step for a surface status; `retried` tells whether the surface
/// has already been reconfigured after being lost in this frame.
pub open spec fn spec_frame_step(status: SurfaceStatus, retried: bool) -> FrameStep {
    match status {
        SurfaceStatus::Acquired => FrameStep::Draw,
        _ => if retried {
            FrameStep::Abort
        } else {
            match status {
                SurfaceStatus::Lost => FrameStep::ReconfigureAndRetry,
                SurfaceStatus::Outdated => FrameStep::ReconfigureAndSkip,
                _ => FrameStep::ReportAndSkip,
            }
        },
    }
}

/// Decides the next step of a frame: an acquired texture is drawn; a lost
/// surface is reconfigured and asked once more, and any error on that second
/// request stops; an outdated surface is reconfigured and the frame skipped;
/// any other error is reported and the frame skipped.
pub fn frame_step(status: SurfaceStatus, retried: bool) -> (step: FrameStep)
    ensures
        step == spec_frame_step(status, retried),
{
    match status {
        SurfaceStatus::Acquired => FrameStep::Draw,
        SurfaceStatus::Lost => if retried {
            FrameStep::Abort
        } else {
            FrameStep::ReconfigureAndRetry
        },
        SurfaceStatus::Outdated => if retried {
            FrameStep::Abort
        } else {
            FrameStep::ReconfigureAndSkip
        },
        SurfaceStatus::Failed => if retried {
            FrameStep::Abort
        } else {
            FrameStep::ReportAndSkip
        },
    }
}

/// A frame draws exactly when a texture was acquired.
pub proof fn law_draw_iff_acquired(status: SurfaceStatus, retried: bool)
    ensures
        (spec_frame_step(status, retried) == FrameStep::Draw) <==> status == SurfaceStatus::Acquired,
{
}

/// A frame retries at most once: after the retry no step asks for another.
pub proof fn law_at_most_one_retry(status: SurfaceStatus)
    ensures
        spec_frame_step(status, true) != FrameStep::ReconfigureAndRetry,
        (spec_frame_step(status, false) == FrameStep::ReconfigureAndRetry) <==> status
            == SurfaceStatus::Lost,
{
}

/// A frame stops only when the retry after a lost surface fails too.
pub proof fn law_abort_only_after_retry(status: SurfaceStatus, retried: bool)
    ensures
        (spec_frame_step(status, retried) == FrameStep::Abort) <==> (retried && status
            != SurfaceStatus::Acquired),
{
}

} // verus!
