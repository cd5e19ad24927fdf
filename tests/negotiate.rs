use nokhwa_capture::catalog::Fraction;
use nokhwa_capture::fourcc::frameformat_to_fourcc;
use nokhwa_capture::negotiate::{
    apply_error_to_nokhwa, format_from_device, native_format, ApplyError, DeviceAction, DeviceEvent,
    DeviceFormat, FormatApply,
};
use nokhwa_capture::types::{CameraFormat, FourCC, FrameFormat, NokhwaError};

struct FakeDevice {
    format: DeviceFormat,
    interval: Fraction,
    coerce_to: Option<DeviceFormat>,
    coerce_rate: Option<Fraction>,
    reopen_fails: bool,
    restore_fails: bool,
    reopen_failed: bool,
    writes: usize,
}

impl FakeDevice {
    fn new(format: DeviceFormat, interval: Fraction) -> FakeDevice {
        FakeDevice { format, interval, coerce_to: None, coerce_rate: None, reopen_fails: false, restore_fails: false, reopen_failed: false, writes: 0 }
    }

    fn answer(&mut self, a: &DeviceAction) -> DeviceEvent {
        match a {
            DeviceAction::QueryFormat => DeviceEvent::Format(Ok(self.format)),
            DeviceAction::QueryInterval => DeviceEvent::Interval(Ok(self.interval)),
            DeviceAction::SetFormat(f) => {
                if self.reopen_failed && self.restore_fails {
                    return DeviceEvent::Done(Err("restore refused".to_string()));
                }
                self.writes += 1;
                self.format = self.coerce_to.unwrap_or(*f);
                DeviceEvent::Done(Ok(()))
            }
            DeviceAction::SetInterval(i) => {
                if self.reopen_failed && self.restore_fails {
                    return DeviceEvent::Done(Err("restore refused".to_string()));
                }
                self.writes += 1;
                self.interval = self.coerce_rate.unwrap_or(*i);
                DeviceEvent::Done(Ok(()))
            }
            DeviceAction::ReopenStream => {
                if self.reopen_fails && !self.reopen_failed {
                    self.reopen_failed = true;
                    DeviceEvent::Done(Err("no buffers".to_string()))
                } else {
                    DeviceEvent::Done(Ok(()))
                }
            }
            DeviceAction::Finish(_) => panic!("finished"),
        }
    }
}

fn listed() -> Vec<CameraFormat> {
    vec![target(), CameraFormat::new_from(640, 480, FrameFormat::YUYV, 30)]
}

fn drive(dev: &mut FakeDevice, target: CameraFormat, stream_open: bool) -> Result<CameraFormat, ApplyError> {
    drive_with(dev, target, stream_open, listed())
}

fn drive_with(dev: &mut FakeDevice, target: CameraFormat, stream_open: bool, catalog: Vec<CameraFormat>) -> Result<CameraFormat, ApplyError> {
    let (mut m, mut a) = FormatApply::start(target, stream_open, catalog);
    for _ in 0..20 {
        if let DeviceAction::Finish(r) = a {
            return r;
        }
        let e = dev.answer(&a);
        a = m.step(e);
    }
    panic!("did not finish");
}

fn native(w: u32, h: u32, f: FrameFormat) -> DeviceFormat {
    DeviceFormat { width: w, height: h, fourcc: frameformat_to_fourcc(f) }
}

fn old_state() -> FakeDevice {
    FakeDevice::new(native(640, 480, FrameFormat::YUYV), Fraction { numerator: 1, denominator: 30 })
}

fn target() -> CameraFormat {
    CameraFormat::new_from(1280, 720, FrameFormat::MJPEG, 60)
}

#[test]
fn apply_pushes_and_verifies() {
    let mut dev = old_state();
    assert_eq!(drive(&mut dev, target(), false).unwrap(), target());
    assert_eq!(dev.format.width, 1280);
    assert_eq!(dev.format.fourcc.repr, *b"MJPG");
    assert_eq!(dev.interval, Fraction { numerator: 1, denominator: 60 });
}

#[test]
fn apply_with_open_stream_reopens() {
    let mut dev = old_state();
    assert_eq!(drive(&mut dev, target(), true).unwrap(), target());
}

#[test]
fn coerced_format_is_rejected() {
    let mut dev = old_state();
    dev.coerce_to = Some(native(1280, 720, FrameFormat::YUYV));
    match drive(&mut dev, target(), false) {
        Err(ApplyError::Rejected { requested, observed }) => {
            assert_eq!(requested, target());
            assert_eq!(observed, CameraFormat::new_from(1280, 720, FrameFormat::YUYV, 60));
        }
        other => panic!("unexpected {:?}", other),
    }
}

#[test]
fn failed_reopen_restores_previous_format() {
    let mut dev = old_state();
    dev.reopen_fails = true;
    match drive(&mut dev, target(), true) {
        Err(ApplyError::ReopenFailed(why)) => assert_eq!(why, "no buffers"),
        other => panic!("unexpected {:?}", other),
    }
    assert_eq!(dev.format.width, 640);
    assert_eq!(dev.format.height, 480);
    assert_eq!(dev.format.fourcc.repr, *b"YUYV");
    assert_eq!(dev.interval, Fraction { numerator: 1, denominator: 30 });
    assert_eq!(dev.writes, 4);
    assert!(dev.reopen_failed);
}

#[test]
fn failed_restore_is_compound_error() {
    let mut dev = old_state();
    dev.reopen_fails = true;
    dev.restore_fails = true;
    match drive(&mut dev, target(), true) {
        Err(ApplyError::RestoreFormatFailed { reopen, previous, why }) => {
            assert_eq!(reopen, "no buffers");
            assert_eq!((previous.width, previous.height, previous.fourcc.repr), (640, 480, *b"YUYV"));
            assert_eq!(why, "restore refused");
        }
        other => panic!("unexpected {:?}", other),
    }
    let e = apply_error_to_nokhwa(ApplyError::RestoreFormatFailed {
        reopen: "no buffers".to_string(),
        previous: native(640, 480, FrameFormat::YUYV),
        why: "EBUSY".to_string(),
    });
    match e {
        NokhwaError::SetPropertyError { property, value, error } => {
            assert_eq!(property, "Attempt undo due to stream acquisition failure with error no buffers. Resolution, FrameFormat");
            assert_eq!(value, "640x480 YUYV");
            assert_eq!(error, "EBUSY");
        }
        other => panic!("unexpected {:?}", other),
    }
    let e = apply_error_to_nokhwa(ApplyError::RestoreRateFailed {
        reopen: "x".to_string(),
        previous: Fraction { numerator: 1, denominator: 30 },
        why: "y".to_string(),
    });
    match e {
        NokhwaError::SetPropertyError { property, value, error } => {
            assert_eq!(property, "Attempt undo due to stream acquisition failure with error x. Frame rate");
            assert_eq!(value, "1/30");
            assert_eq!(error, "y");
        }
        other => panic!("unexpected {:?}", other),
    }
}

#[test]
fn refused_writes_fail_the_apply() {
    let (mut m, a) = FormatApply::start(target(), false, listed());
    assert!(matches!(a, DeviceAction::QueryFormat));
    assert!(matches!(m.step(DeviceEvent::Format(Ok(native(1, 1, FrameFormat::GRAY)))), DeviceAction::QueryInterval));
    assert!(matches!(m.step(DeviceEvent::Interval(Ok(Fraction { numerator: 1, denominator: 5 }))), DeviceAction::SetFormat(_)));
    match m.step(DeviceEvent::Done(Err("EBUSY".to_string()))) {
        DeviceAction::Finish(Err(ApplyError::SetFormatFailed { attempted, why })) => {
            assert_eq!(attempted, target());
            assert_eq!(why, "EBUSY");
        }
        other => panic!("unexpected {:?}", other),
    }
    assert!(matches!(m.step(DeviceEvent::Done(Ok(()))), DeviceAction::Finish(Err(ApplyError::UnexpectedEvent))));
}

#[test]
fn query_failure_and_wrong_event() {
    let (mut m, _) = FormatApply::start(target(), false, listed());
    match m.step(DeviceEvent::Format(Err("gone".to_string()))) {
        DeviceAction::Finish(Err(ApplyError::FormatQueryFailed(w))) => assert_eq!(w, "gone"),
        other => panic!("unexpected {:?}", other),
    }
    let (mut m, _) = FormatApply::start(target(), false, listed());
    assert!(matches!(m.step(DeviceEvent::Done(Ok(()))), DeviceAction::Finish(Err(ApplyError::UnexpectedEvent))));
}

#[test]
fn read_back_normalises_device_state() {
    let f = native(320, 240, FrameFormat::NV12);
    assert_eq!(
        format_from_device(f, Fraction { numerator: 2, denominator: 50 }).unwrap(),
        CameraFormat::new_from(320, 240, FrameFormat::NV12, 25)
    );
    assert!(matches!(
        format_from_device(f, Fraction { numerator: 1001, denominator: 30000 }),
        Err(ApplyError::FractionalRate(_))
    ));
    let odd = DeviceFormat { width: 1, height: 1, fourcc: FourCC { repr: *b"H264" } };
    assert!(matches!(
        format_from_device(odd, Fraction { numerator: 1, denominator: 30 }),
        Err(ApplyError::UnsupportedFormat)
    ));
    let n = native_format(target());
    assert_eq!((n.width, n.height, n.fourcc.repr), (1280, 720, *b"MJPG"));
}

#[test]
fn apply_errors_map_to_library_errors() {
    assert!(matches!(apply_error_to_nokhwa(ApplyError::ReopenFailed("x".to_string())), NokhwaError::OpenStreamError(_)));
    match apply_error_to_nokhwa(ApplyError::Rejected { requested: target(), observed: target() }) {
        NokhwaError::SetPropertyError { property, value, error } => {
            assert_eq!(property, "CameraFormat");
            assert_eq!(value, "1280x720@60FPS, MJPEG Format");
            assert_eq!(error, "Rejected");
        }
        other => panic!("unexpected {:?}", other),
    }
    match apply_error_to_nokhwa(ApplyError::SetRateFailed { fps: 60, why: "x".to_string() }) {
        NokhwaError::SetPropertyError { property, value, error } => {
            assert_eq!((property.as_str(), value.as_str(), error.as_str()), ("Frame rate", "60", "x"));
        }
        other => panic!("unexpected {:?}", other),
    }
    match apply_error_to_nokhwa(ApplyError::FractionalRate(Fraction { numerator: 2, denominator: 25 })) {
        NokhwaError::GetPropertyError { property, error } => {
            assert_eq!((property.as_str(), error.as_str()), ("V4L2 FrameRate", "Framerate not whole number"));
        }
        other => panic!("unexpected {:?}", other),
    }
    match apply_error_to_nokhwa(ApplyError::RateQueryFailed("q".to_string())) {
        NokhwaError::GetPropertyError { property, error } => {
            assert_eq!((property.as_str(), error.as_str()), ("Frame rate", "q"));
        }
        other => panic!("unexpected {:?}", other),
    }
    match apply_error_to_nokhwa(ApplyError::RestoreStreamFailed { reopen: "a".to_string(), why: "b".to_string() }) {
        NokhwaError::SetPropertyError { property, value, error } => {
            assert_eq!(property, "Attempt undo due to stream acquisition failure with error a. Stream");
            assert_eq!((value.as_str(), error.as_str()), ("", "b"));
        }
        other => panic!("unexpected {:?}", other),
    }
}

#[test]
fn unlisted_format_is_refused_before_any_write() {
    let mut dev = old_state();
    match drive_with(&mut dev, target(), false, vec![]) {
        Err(ApplyError::Unlisted(c)) => assert_eq!(c, target()),
        other => panic!("unexpected {:?}", other),
    }
    assert_eq!(dev.writes, 0);
    match apply_error_to_nokhwa(ApplyError::Unlisted(target())) {
        NokhwaError::SetPropertyError { property, value, error } => {
            assert_eq!(property, "CameraFormat");
            assert_eq!(value, "1280x720@60FPS, MJPEG Format");
            assert_eq!(error, "Not in the capability catalog");
        }
        other => panic!("unexpected {:?}", other),
    }
}

#[test]
fn coerced_rate_is_rejected() {
    let mut dev = old_state();
    dev.coerce_rate = Some(Fraction { numerator: 1, denominator: 30 });
    match drive(&mut dev, target(), false) {
        Err(ApplyError::Rejected { observed, .. }) => {
            assert_eq!(observed, CameraFormat::new_from(1280, 720, FrameFormat::MJPEG, 30));
        }
        other => panic!("unexpected {:?}", other),
    }
}

#[test]
fn failed_reopen_of_restored_stream_is_compound() {
    let (mut m, _) = FormatApply::start(target(), true, listed());
    m.step(DeviceEvent::Format(Ok(native(640, 480, FrameFormat::YUYV))));
    m.step(DeviceEvent::Interval(Ok(Fraction { numerator: 1, denominator: 30 })));
    m.step(DeviceEvent::Done(Ok(())));
    assert!(matches!(m.step(DeviceEvent::Done(Ok(()))), DeviceAction::ReopenStream));
    assert!(matches!(m.step(DeviceEvent::Done(Err("first".to_string()))), DeviceAction::SetFormat(_)));
    assert!(matches!(m.step(DeviceEvent::Done(Ok(()))), DeviceAction::SetInterval(_)));
    assert!(matches!(m.step(DeviceEvent::Done(Ok(()))), DeviceAction::ReopenStream));
    match m.step(DeviceEvent::Done(Err("second".to_string()))) {
        DeviceAction::Finish(Err(ApplyError::RestoreStreamFailed { reopen, why })) => {
            assert_eq!((reopen.as_str(), why.as_str()), ("first", "second"));
        }
        other => panic!("unexpected {:?}", other),
    }
}

#[test]
fn opening_read_back_mismatch_is_not_same() {
    let mut dev = old_state();
    dev.coerce_to = Some(native(1280, 720, FrameFormat::YUYV));
    let (mut m, mut a) = FormatApply::open(target(), listed());
    assert!(!m.stream_open);
    let result = loop {
        if let DeviceAction::Finish(r) = a {
            break r;
        }
        let e = dev.answer(&a);
        a = m.step(e);
    };
    match result {
        Err(ApplyError::NotSame { requested, observed }) => {
            assert_eq!(requested, target());
            assert_eq!(observed, CameraFormat::new_from(1280, 720, FrameFormat::YUYV, 60));
        }
        other => panic!("unexpected {:?}", other),
    }
    match apply_error_to_nokhwa(ApplyError::NotSame { requested: target(), observed: target() }) {
        NokhwaError::SetPropertyError { property, value, error } => {
            assert_eq!(property, "CameraFormat");
            assert_eq!(value, "1280x720@60FPS, MJPEG Format");
            assert_eq!(error, "Not same/Rejected");
        }
        other => panic!("unexpected {:?}", other),
    }
}
