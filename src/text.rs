use vstd::prelude::*;
use vstd::string::StringExecFns;
use crate::types::{CameraFormat, FrameFormat};

verus! {

/// Relies on `String::push`: appends one character.
#[verifier::external_body]
pub(crate) fn push_char(s: &mut String, c: char)
    ensures
        final(s)@ == old(s)@.push(c),
{
    s.push(c)
}

/// Relies on `String::push_str`: appends a string slice.
#[verifier::external_body]
fn push_text(s: &mut String, t: &str)
    ensures
        final(s)@ == old(s)@ + t@,
{
    s.push_str(t)
}

pub open spec fn digit(d: int) -> char {
    seq!['0', '1', '2', '3', '4', '5', '6', '7', '8', '9'][d]
}

/// The decimal digits of `n`, most significant first.
pub open spec fn decimal(n: nat) -> Seq<char>
    decreases n,
{
    if n < 10 {
        seq![digit(n as int)]
    } else {
        decimal(n / 10).push(digit((n % 10) as int))
    }
}

/// `i` in decimal, with a leading minus sign when negative.
pub open spec fn signed_decimal(i: int) -> Seq<char> {
    if i < 0 {
        seq!['-'] + decimal((-i) as nat)
    } else {
        decimal(i as nat)
    }
}

pub open spec fn format_name(f: FrameFormat) -> Seq<char> {
    match f {
        FrameFormat::MJPEG => "MJPEG"@,
        FrameFormat::YUYV => "YUYV"@,
        FrameFormat::GRAY => "GRAY"@,
        FrameFormat::RAWRGB => "RAWRGB"@,
        FrameFormat::NV12 => "NV12"@,
    }
}

/// How an operating format is written in messages, e.g.
/// `1920x1080@30FPS, MJPEG Format`.
pub open spec fn format_text(c: CameraFormat) -> Seq<char> {
    decimal(c.resolution.width_x as nat) + "x"@ + decimal(c.resolution.height_y as nat) + "@"@
        + decimal(c.frame_rate as nat) + "FPS, "@ + format_name(c.format) + " Format"@
}

fn digit_char(d: u128) -> (c: char)
    requires
        d < 10,
    ensures
        c == digit(d as int),
{
    let digits: [char; 10] = ['0', '1', '2', '3', '4', '5', '6', '7', '8', '9'];
    assert(digits@ =~= seq!['0', '1', '2', '3', '4', '5', '6', '7', '8', '9']);
    digits[d as usize]
}

/// Appends `n` in decimal.
pub fn push_decimal(s: &mut String, n: u128)
    ensures
        final(s)@ == old(s)@ + decimal(n as nat),
    decreases n,
{
    if n >= 10 {
        push_decimal(s, n / 10);
    }
    push_char(s, digit_char(n % 10));
    assert(s@ =~= old(s)@ + decimal(n as nat));
}

/// Appends `i` in decimal, with a minus sign when negative.
pub fn push_signed(s: &mut String, i: i128)
    requires
        i > i128::MIN,
    ensures
        final(s)@ == old(s)@ + signed_decimal(i as int),
{
    if i < 0 {
        push_char(s, '-');
        push_decimal(s, (-i) as u128);
        assert(s@ =~= old(s)@ + signed_decimal(i as int));
    } else {
        push_decimal(s, i as u128);
    }
}

/// Appends a string slice.
pub fn push_str(s: &mut String, t: &str)
    ensures
        final(s)@ == old(s)@ + t@,
{
    push_text(s, t);
}

/// An owned copy of a string slice.
pub fn text(t: &str) -> (r: String)
    ensures
        r@ == t@,
{
    <String as StringExecFns>::from_str(t)
}

/// Renders `n` in decimal.
pub fn decimal_string(n: u128) -> (r: String)
    ensures
        r@ == decimal(n as nat),
{
    let mut s = String::new();
    push_decimal(&mut s, n);
    assert(s@ =~= decimal(n as nat));
    s
}

/// Renders an operating format as `format_text` describes.
pub fn format_string(c: CameraFormat) -> (r: String)
    ensures
        r@ == format_text(c),
{
    let mut s = String::new();
    push_decimal(&mut s, c.resolution.width_x as u128);
    push_str(&mut s, "x");
    push_decimal(&mut s, c.resolution.height_y as u128);
    push_str(&mut s, "@");
    push_decimal(&mut s, c.frame_rate as u128);
    push_str(&mut s, "FPS, ");
    match c.format {
        FrameFormat::MJPEG => push_str(&mut s, "MJPEG"),
        FrameFormat::YUYV => push_str(&mut s, "YUYV"),
        FrameFormat::GRAY => push_str(&mut s, "GRAY"),
        FrameFormat::RAWRGB => push_str(&mut s, "RAWRGB"),
        FrameFormat::NV12 => push_str(&mut s, "NV12"),
    }
    push_str(&mut s, " Format");
    assert(s@ =~= format_text(c));
    s
}

} // verus!
