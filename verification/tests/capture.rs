use tracy_gizmos::capture::{start_capture, CaptureFlag, TracyClient};
use tracy_gizmos::mode::Mode;
use tracy_gizmos::sink::SinkCall;

#[test]
fn double_lifecycle() {
    let mut flag = CaptureFlag::new();
    let (tracy, call) = TracyClient::start(&mut flag);
    assert_eq!(call, SinkCall::StartupProfiler);
    assert_eq!(tracy.shutdown(&mut flag), SinkCall::ShutdownProfiler);
    let (_tracy, call) = TracyClient::start(&mut flag);
    assert_eq!(call, SinkCall::StartupProfiler);
}

#[test]
fn lib_double_lifecycle() {
    let mut flag = CaptureFlag::new();
    let (tracy, call) = start_capture(Mode::Enabled, &mut flag);
    assert_eq!(call, Some(SinkCall::StartupProfiler));
    assert_eq!(tracy.finish(&mut flag), Some(SinkCall::ShutdownProfiler));
    let (_tracy, call) = start_capture(Mode::Enabled, &mut flag);
    assert_eq!(call, Some(SinkCall::StartupProfiler));
}

#[test]
fn fresh_flag_is_lowered() {
    assert!(!CaptureFlag::new().is_started());
}

#[test]
fn flag_is_raised_while_a_client_lives() {
    let mut flag = CaptureFlag::new();
    let (tracy, _) = TracyClient::start(&mut flag);
    assert!(flag.is_started());
    tracy.shutdown(&mut flag);
    assert!(!flag.is_started());
}

#[test]
fn flag_is_raised_while_a_capture_lives() {
    let mut flag = CaptureFlag::new();
    let (tracy, _) = start_capture(Mode::Enabled, &mut flag);
    assert!(tracy.is_live());
    assert!(flag.is_started());
    tracy.finish(&mut flag);
    assert!(!flag.is_started());
}

#[test]
fn client_is_not_connected_before_a_consumer_attaches() {
    let mut flag = CaptureFlag::new();
    let (tracy, _) = TracyClient::start(&mut flag);
    assert!(!tracy.is_connected(0));
    assert!(tracy.is_connected(1));
    assert!(tracy.is_connected(-1));
}

#[test]
fn capture_is_not_connected_before_a_consumer_attaches() {
    let mut flag = CaptureFlag::new();
    let (tracy, _) = start_capture(Mode::Enabled, &mut flag);
    assert!(!tracy.is_connected(0));
    assert!(tracy.is_connected(1));
}

#[test]
fn disabled_capture_is_inert() {
    let mut flag = CaptureFlag::new();
    let (first, call) = start_capture(Mode::Disabled, &mut flag);
    assert_eq!(call, None);
    assert!(!first.is_live());
    assert!(!flag.is_started());
    let (second, call) = start_capture(Mode::Disabled, &mut flag);
    assert_eq!(call, None);
    assert!(first.is_connected(0));
    assert!(second.is_connected(0));
    assert_eq!(first.finish(&mut flag), None);
    assert_eq!(second.finish(&mut flag), None);
    assert!(!flag.is_started());
}

#[test]
fn disabled_capture_leaves_a_raised_flag_alone() {
    let mut flag = CaptureFlag::new();
    let (live, _) = start_capture(Mode::Enabled, &mut flag);
    let (inert, call) = start_capture(Mode::Disabled, &mut flag);
    assert_eq!(call, None);
    assert_eq!(inert.finish(&mut flag), None);
    assert!(flag.is_started());
    assert_eq!(live.finish(&mut flag), Some(SinkCall::ShutdownProfiler));
    assert!(!flag.is_started());
}

#[test]
#[should_panic]
fn double_start_fails() {
    let mut flag = CaptureFlag::new();
    let (_tracy1, _) = TracyClient::start(&mut flag);
    // A start is in order only while no client is live.
    assert!(!flag.is_started(), "Tracy client has been started already.");
    let (_tracy2, _) = TracyClient::start(&mut flag);
}

#[test]
#[should_panic]
fn lib_double_start_fails() {
    let mut flag = CaptureFlag::new();
    let (_tracy1, _) = start_capture(Mode::Enabled, &mut flag);
    // A start is in order only while no capture is live.
    assert!(!flag.is_started(), "Tracy capture has been started already.");
    let (_tracy2, _) = start_capture(Mode::Enabled, &mut flag);
}
