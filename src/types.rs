use vstd::prelude::*;

verus! {

/// A pixel layout a capture device can produce. Native layouts outside this
/// set are not represented.
#[derive(Clone, Copy, Debug, PartialEq, Eq, Structural, Hash)]
pub enum FrameFormat {
    MJPEG,
    YUYV,
    GRAY,
    RAWRGB,
    NV12,
}

/// Position of a frame format in the fixed order used to break ties.
pub open spec fn format_rank(f: FrameFormat) -> int {
    match f {
        FrameFormat::MJPEG => 0,
        FrameFormat::YUYV => 1,
        FrameFormat::GRAY => 2,
        FrameFormat::RAWRGB => 3,
        FrameFormat::NV12 => 4,
    }
}

pub fn frame_format_rank(f: FrameFormat) -> (r: u8)
    ensures
        r as int == format_rank(f),
{
    match f {
        FrameFormat::MJPEG => 0,
        FrameFormat::YUYV => 1,
        FrameFormat::GRAY => 2,
        FrameFormat::RAWRGB => 3,
        FrameFormat::NV12 => 4,
    }
}

/// A frame size in pixels.
#[derive(Clone, Copy, Debug, PartialEq, Eq, Structural, Hash)]
pub struct Resolution {
    pub width_x: u32,
    pub height_y: u32,
}

/// One supported (or active) combination of frame size, pixel layout and
/// whole-number frame rate.
#[derive(Clone, Copy, Debug, PartialEq, Eq, Structural, Hash)]
pub struct CameraFormat {
    pub resolution: Resolution,
    pub format: FrameFormat,
    pub frame_rate: u32,
}

/// A four-byte pixel layout code as a driver reports it.
#[derive(Clone, Copy, Debug)]
pub struct FourCC {
    pub repr: [u8; 4],
}

/// The errors of this library. Fields hold human-readable text; `error`
/// carries the driver's own message where there is one.
#[derive(Clone, Debug)]
pub enum NokhwaError {
    OpenDeviceError(String, String),
    GetPropertyError { property: String, error: String },
    SetPropertyError { property: String, value: String, error: String },
    OpenStreamError(String),
    ReadFrameError(String),
    UnsupportedOperationError(String),
}

impl Resolution {
    pub fn new(x: u32, y: u32) -> (r: Resolution)
        ensures
            r.width_x == x,
            r.height_y == y,
    {
        Resolution { width_x: x, height_y: y }
    }

    pub fn width(&self) -> (r: u32)
        ensures
            r == self.width_x,
    {
        self.width_x
    }

    pub fn height(&self) -> (r: u32)
        ensures
            r == self.height_y,
    {
        self.height_y
    }
}

impl CameraFormat {
    pub fn new(resolution: Resolution, format: FrameFormat, frame_rate: u32) -> (r: CameraFormat)
        ensures
            r.resolution == resolution,
            r.format == format,
            r.frame_rate == frame_rate,
    {
        CameraFormat { resolution, format, frame_rate }
    }

    pub fn new_from(width: u32, height: u32, format: FrameFormat, fps: u32) -> (r: CameraFormat)
        ensures
            r.resolution == (Resolution { width_x: width, height_y: height }),
            r.format == format,
            r.frame_rate == fps,
    {
        CameraFormat { resolution: Resolution { width_x: width, height_y: height }, format, frame_rate: fps }
    }

    pub fn resolution(&self) -> (r: Resolution)
        ensures
            r == self.resolution,
    {
        self.resolution
    }

    pub fn width(&self) -> (r: u32)
        ensures
            r == self.resolution.width_x,
    {
        self.resolution.width_x
    }

    pub fn height(&self) -> (r: u32)
        ensures
            r == self.resolution.height_y,
    {
        self.resolution.height_y
    }

    pub fn format(&self) -> (r: FrameFormat)
        ensures
            r == self.format,
    {
        self.format
    }

    pub fn frame_rate(&self) -> (r: u32)
        ensures
            r == self.frame_rate,
    {
        self.frame_rate
    }

    pub fn set_resolution(&mut self, resolution: Resolution)
        ensures
            *final(self) == (CameraFormat { resolution, ..*old(self) }),
    {
        self.resolution = resolution;
    }

    pub fn set_format(&mut self, format: FrameFormat)
        ensures
            *final(self) == (CameraFormat { format, ..*old(self) }),
    {
        self.format = format;
    }

    pub fn set_frame_rate(&mut self, frame_rate: u32)
        ensures
            *final(self) == (CameraFormat { frame_rate, ..*old(self) }),
    {
        self.frame_rate = frame_rate;
    }
}

/// Read-only identity of a device.
#[derive(Clone, Debug)]
pub struct CameraInfo {
    pub human_name: String,
    pub description: String,
    pub misc: String,
    pub index: u32,
}

impl CameraInfo {
    pub fn new(human_name: String, description: String, misc: String, index: u32) -> (r: CameraInfo)
        ensures
            r.human_name == human_name,
            r.description == description,
            r.misc == misc,
            r.index == index,
    {
        CameraInfo { human_name, description, misc, index }
    }
}

/// `e` is a `GetPropertyError` with exactly this label and message.
pub open spec fn is_get_error(e: NokhwaError, property: Seq<char>, error: Seq<char>) -> bool {
    match e {
        NokhwaError::GetPropertyError { property: p, error: m } => p@ == property && m@ == error,
        _ => false,
    }
}

/// `e` is a `SetPropertyError` with exactly this label, attempted value and
/// message.
pub open spec fn is_set_error(
    e: NokhwaError,
    property: Seq<char>,
    value: Seq<char>,
    error: Seq<char>,
) -> bool {
    match e {
        NokhwaError::SetPropertyError { property: p, value: v, error: m } => p@ == property && v@
            == value && m@ == error,
        _ => false,
    }
}

} // verus!
