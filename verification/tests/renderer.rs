use manifold::renderer::{frame_step, FrameStep, SurfaceStatus};

#[test]
fn acquired_texture_is_drawn() {
    assert_eq!(frame_step(SurfaceStatus::Acquired, false), FrameStep::Draw);
    assert_eq!(frame_step(SurfaceStatus::Acquired, true), FrameStep::Draw);
}

#[test]
fn lost_surface_is_retried_once() {
    assert_eq!(frame_step(SurfaceStatus::Lost, false), FrameStep::ReconfigureAndRetry);
    assert_eq!(frame_step(SurfaceStatus::Lost, true), FrameStep::Abort);
}

#[test]
fn outdated_surface_skips_frame() {
    assert_eq!(frame_step(SurfaceStatus::Outdated, false), FrameStep::ReconfigureAndSkip);
}

#[test]
fn other_error_is_reported() {
    assert_eq!(frame_step(SurfaceStatus::Failed, false), FrameStep::ReportAndSkip);
}

#[test]
fn any_error_after_retry_aborts() {
    assert_eq!(frame_step(SurfaceStatus::Outdated, true), FrameStep::Abort);
    assert_eq!(frame_step(SurfaceStatus::Failed, true), FrameStep::Abort);
}
