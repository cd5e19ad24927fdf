use vstd::prelude::*;
use crate::types::{FourCC, FrameFormat};

verus! {

/// The four-byte code a driver uses for each frame format.
pub open spec fn fourcc_code(f: FrameFormat) -> Seq<u8> {
    match f {
        FrameFormat::MJPEG => seq![77u8, 74u8, 80u8, 71u8],  // "MJPG"
        FrameFormat::YUYV => seq![89u8, 85u8, 89u8, 86u8],  // "YUYV"
        FrameFormat::GRAY => seq![71u8, 82u8, 65u8, 89u8],  // "GRAY"
        FrameFormat::RAWRGB => seq![82u8, 71u8, 66u8, 51u8],  // "RGB3"
        FrameFormat::NV12 => seq![78u8, 86u8, 49u8, 50u8],  // "NV12"
    }
}

/// The frame format a four-byte code names, if it is one of the known ones.
pub open spec fn format_of_code(code: Seq<u8>) -> Option<FrameFormat> {
    if code == fourcc_code(FrameFormat::YUYV) {
        Some(FrameFormat::YUYV)
    } else if code == fourcc_code(FrameFormat::MJPEG) {
        Some(FrameFormat::MJPEG)
    } else if code == fourcc_code(FrameFormat::GRAY) {
        Some(FrameFormat::GRAY)
    } else if code == fourcc_code(FrameFormat::RAWRGB) {
        Some(FrameFormat::RAWRGB)
    } else if code == fourcc_code(FrameFormat::NV12) {
        Some(FrameFormat::NV12)
    } else {
        None
    }
}

fn code_is(repr: &[u8; 4], a: u8, b: u8, c: u8, d: u8) -> (r: bool)
    ensures
        r == (repr@ == seq![a, b, c, d]),
{
    let r = repr[0] == a && repr[1] == b && repr[2] == c && repr[3] == d;
    if r {
        assert(repr@ =~= seq![a, b, c, d]);
    } else {
        assert(repr@ != seq![a, b, c, d]) by {
            if repr@ == seq![a, b, c, d] {
                assert(repr@[0] == a && repr@[1] == b && repr@[2] == c && repr@[3] == d);
            }
        }
    }
    r
}

/// Maps a driver's four-byte code to a frame format; unknown codes give `None`.
pub fn fourcc_to_frameformat(fourcc: FourCC) -> (r: Option<FrameFormat>)
    ensures
        r == format_of_code(fourcc.repr@),
{
    if code_is(&fourcc.repr, 89, 85, 89, 86) {
        Some(FrameFormat::YUYV)
    } else if code_is(&fourcc.repr, 77, 74, 80, 71) {
        Some(FrameFormat::MJPEG)
    } else if code_is(&fourcc.repr, 71, 82, 65, 89) {
        Some(FrameFormat::GRAY)
    } else if code_is(&fourcc.repr, 82, 71, 66, 51) {
        Some(FrameFormat::RAWRGB)
    } else if code_is(&fourcc.repr, 78, 86, 49, 50) {
        Some(FrameFormat::NV12)
    } else {
        None
    }
}

/// Maps a frame format to the four-byte code a driver expects.
pub fn frameformat_to_fourcc(fourcc: FrameFormat) -> (r: FourCC)
    ensures
        r.repr@ == fourcc_code(fourcc),
{
    let repr: [u8; 4] = match fourcc {
        FrameFormat::MJPEG => [77, 74, 80, 71],
        FrameFormat::YUYV => [89, 85, 89, 86],
        FrameFormat::GRAY => [71, 82, 65, 89],
        FrameFormat::RAWRGB => [82, 71, 66, 51],
        FrameFormat::NV12 => [78, 86, 49, 50],
    };
    assert(repr@ =~= fourcc_code(fourcc));
    FourCC { repr }
}

/// Every frame format survives the trip to its code and back.
pub proof fn lemma_fourcc_round_trip(f: FrameFormat)
    ensures
        format_of_code(fourcc_code(f)) == Some(f),
{
    let c = fourcc_code(f);
    assert(c[0] != fourcc_code(FrameFormat::YUYV)[0] || c[3] != fourcc_code(FrameFormat::YUYV)[3]
        || f == FrameFormat::YUYV);
    assert(c[0] != fourcc_code(FrameFormat::MJPEG)[0] || f == FrameFormat::MJPEG);
    assert(c[0] != fourcc_code(FrameFormat::GRAY)[0] || c[1] != fourcc_code(FrameFormat::GRAY)[1]
        || f == FrameFormat::GRAY);
    assert(c[0] != fourcc_code(FrameFormat::RAWRGB)[0] || f == FrameFormat::RAWRGB);
}

} // verus!
