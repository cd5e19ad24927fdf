use nokhwa_capture::negotiate::select_format;
use nokhwa_capture::request::{is_preferred, RequestedFormat, RequestedFormatType};
use nokhwa_capture::types::{CameraFormat, FrameFormat, NokhwaError};

fn cf(w: u32, h: u32, fps: u32) -> CameraFormat {
    CameraFormat::new_from(w, h, FrameFormat::MJPEG, fps)
}

fn catalog() -> Vec<CameraFormat> {
    vec![
        cf(640, 480, 30),
        cf(1920, 1080, 15),
        cf(1280, 720, 60),
        CameraFormat::new_from(1920, 1080, FrameFormat::YUYV, 5),
        cf(1280, 720, 30),
    ]
}

#[test]
fn exact_request_yields_listed_entry() {
    for e in catalog() {
        let req = RequestedFormat::new(RequestedFormatType::Exact(e));
        assert_eq!(req.fulfill(&catalog()), Some(e));
    }
}

#[test]
fn exact_request_for_missing_entry_fails() {
    let req = RequestedFormat::new(RequestedFormatType::Exact(cf(800, 600, 30)));
    assert_eq!(req.fulfill(&catalog()), None);
    match select_format(&req, &catalog()) {
        Err(NokhwaError::GetPropertyError { property, error }) => {
            assert_eq!(property, "CameraFormat");
            assert_eq!(error, "Failed to Fufill");
        }
        other => panic!("unexpected {:?}", other),
    }
}

#[test]
fn closest_prioritises_resolution_over_rate() {
    let cat = vec![cf(1280, 720, 30), cf(1920, 1080, 24)];
    let req = RequestedFormat::new(RequestedFormatType::Closest(cf(1920, 1080, 30)));
    assert_eq!(req.fulfill(&cat), Some(cf(1920, 1080, 24)));
    let reversed = vec![cf(1920, 1080, 24), cf(1280, 720, 30)];
    assert_eq!(req.fulfill(&reversed), Some(cf(1920, 1080, 24)));
}

#[test]
fn closest_then_nearest_rate() {
    let cat = vec![cf(1280, 720, 60), cf(1280, 720, 25), cf(1280, 720, 15)];
    let req = RequestedFormat::new(RequestedFormatType::Closest(cf(1280, 720, 30)));
    assert_eq!(req.fulfill(&cat), Some(cf(1280, 720, 25)));
}

#[test]
fn highest_resolution_then_rate() {
    let req = RequestedFormat::new(RequestedFormatType::AbsoluteHighestResolution);
    assert_eq!(req.fulfill(&catalog()), Some(cf(1920, 1080, 15)));
}

#[test]
fn highest_rate_then_resolution() {
    let req = RequestedFormat::new(RequestedFormatType::AbsoluteHighestFrameRate);
    assert_eq!(req.fulfill(&catalog()), Some(cf(1280, 720, 60)));
}

#[test]
fn highest_resolution_at_rate_and_rate_at_resolution() {
    let req = RequestedFormat::new(RequestedFormatType::HighestResolution(30));
    assert_eq!(req.fulfill(&catalog()), Some(cf(1280, 720, 30)));
    let req = RequestedFormat::new(RequestedFormatType::HighestFrameRate(cf(1280, 720, 0).resolution));
    assert_eq!(req.fulfill(&catalog()), Some(cf(1280, 720, 60)));
}

#[test]
fn any_picks_smallest_in_fixed_order() {
    let req = RequestedFormat::new(RequestedFormatType::Any);
    assert_eq!(req.fulfill(&catalog()), Some(cf(640, 480, 30)));
    assert_eq!(req.fulfill(&vec![]), None);
}

#[test]
fn allowed_formats_filter_candidates() {
    let req = RequestedFormat::with_formats(RequestedFormatType::AbsoluteHighestResolution, &[FrameFormat::YUYV]);
    assert_eq!(req.fulfill(&catalog()), Some(CameraFormat::new_from(1920, 1080, FrameFormat::YUYV, 5)));
    let none = RequestedFormat::with_formats(RequestedFormatType::Any, &[FrameFormat::NV12]);
    assert_eq!(none.fulfill(&catalog()), None);
    assert_eq!(select_format(&req, &catalog()).unwrap(), CameraFormat::new_from(1920, 1080, FrameFormat::YUYV, 5));
}

#[test]
fn ties_broken_by_format_order() {
    let a = CameraFormat::new_from(640, 480, FrameFormat::MJPEG, 30);
    let b = CameraFormat::new_from(640, 480, FrameFormat::YUYV, 30);
    assert!(is_preferred(RequestedFormatType::Any, a, b));
    assert!(!is_preferred(RequestedFormatType::Any, b, a));
    assert!(!is_preferred(RequestedFormatType::Any, a, a));
    let req = RequestedFormat::new(RequestedFormatType::Any);
    assert_eq!(req.fulfill(&vec![b, a]), Some(a));
}

#[test]
fn format_setters_change_one_field() {
    let mut f = cf(640, 480, 30);
    f.set_frame_rate(15);
    assert_eq!(f, cf(640, 480, 15));
    f.set_resolution(cf(1280, 720, 0).resolution());
    assert_eq!((f.width(), f.height(), f.frame_rate()), (1280, 720, 15));
    f.set_format(FrameFormat::NV12);
    assert_eq!(f.format(), FrameFormat::NV12);
}
