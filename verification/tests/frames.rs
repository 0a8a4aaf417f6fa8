use tracy_gizmos::frame::{discontinuous_frame, mark_frame_end, Frame};
use tracy_gizmos::mode::Mode;
use tracy_gizmos::sink::SinkCall;

#[test]
fn main_frame_has_no_name() {
    assert_eq!(mark_frame_end(Mode::Enabled, None), Some(SinkCall::FrameMark { name: None }));
}

#[test]
fn secondary_frame_is_marked_by_name() {
    assert_eq!(
        mark_frame_end(Mode::Enabled, Some("ai\0")),
        Some(SinkCall::FrameMark { name: Some("ai\0") })
    );
}

#[test]
fn discontinuous_frame_ends_once_when_its_guard_ends() {
    let (guard, at_start) = discontinuous_frame(Mode::Enabled, "IO\0");
    assert_eq!(at_start, Some(SinkCall::FrameMarkStart { name: "IO\0" }));
    assert_eq!(guard.end(), Some(SinkCall::FrameMarkEnd { name: "IO\0" }));
}

#[test]
fn disabled_mode_marks_no_frame() {
    assert_eq!(mark_frame_end(Mode::Disabled, None), None);
    assert_eq!(mark_frame_end(Mode::Disabled, Some("ai\0")), None);
    let (guard, at_start) = discontinuous_frame(Mode::Disabled, "IO\0");
    assert_eq!(at_start, None);
    assert_eq!(guard.end(), None);
}

#[test]
fn inert_frame_emits_nothing() {
    assert_eq!(Frame::new().end(), None);
}
