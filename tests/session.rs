use nokhwa_capture::session::{CaptureControl, LoopAction, StreamSession};
use nokhwa_capture::types::NokhwaError;

#[test]
fn closing_a_closed_session_twice() {
    let mut s = StreamSession::new();
    let (r1, release1) = s.close();
    let (r2, release2) = s.close();
    assert!(r1.is_ok() && r2.is_ok());
    assert!(!release1 && !release2);
    assert!(!s.is_stream_open());
}

#[test]
fn open_then_close_releases_once() {
    let mut s = StreamSession::new();
    assert!(!s.begin_open());
    assert!(s.finish_open(Ok(())).is_ok());
    assert!(s.is_stream_open());
    assert!(s.begin_open());
    assert!(s.finish_open(Ok(())).is_ok());
    let (_, first) = s.close();
    let (_, second) = s.close();
    assert!(first && !second);
}

#[test]
fn failed_open_reports_stream_error() {
    let mut s = StreamSession::new();
    s.begin_open();
    match s.finish_open(Err("EBUSY".to_string())) {
        Err(NokhwaError::OpenStreamError(w)) => assert_eq!(w, "EBUSY"),
        other => panic!("unexpected {:?}", other),
    }
    assert!(!s.is_stream_open());
}

#[test]
fn frames_need_an_open_stream() {
    let mut s = StreamSession::new();
    match s.check_frame() {
        Err(NokhwaError::ReadFrameError(w)) => assert_eq!(w, "Stream Not Started"),
        other => panic!("unexpected {:?}", other),
    }
    s.finish_open(Ok(())).unwrap();
    assert!(s.check_frame().is_ok());
}

#[test]
fn capture_loop_decisions() {
    let mut c = CaptureControl::new();
    assert_eq!(c.loop_step(true, true), (LoopAction::Deliver, false));
    assert_eq!(c.loop_step(true, false), (LoopAction::Retry, false));
    assert_eq!(c.loop_step(false, true), (LoopAction::Retry, false));
    assert!(c.request_stop());
    assert_eq!(c.loop_step(true, true), (LoopAction::Stop, false));
    assert!(!c.request_stop());
}

#[test]
fn loop_releases_when_it_sees_stop_first() {
    let mut c = CaptureControl { stop_requested: true, released: false };
    assert_eq!(c.loop_step(false, false), (LoopAction::Stop, true));
    assert_eq!(c.loop_step(false, false), (LoopAction::Stop, false));
    assert!(!c.request_stop());
}
