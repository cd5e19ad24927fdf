use vstd::prelude::*;
use crate::text::{decimal, push_char, push_decimal, push_signed, push_str, signed_decimal, text};
use crate::types::{is_get_error, is_set_error, NokhwaError};

verus! {

/// A camera control by name, or by the device-native id of a control this
/// library has no name for.
#[derive(Clone, Copy, Debug, PartialEq, Eq, Structural)]
pub enum KnownCameraControl {
    Brightness,
    Contrast,
    Hue,
    Saturation,
    Sharpness,
    Gamma,
    WhiteBalance,
    BacklightComp,
    Gain,
    Pan,
    Tilt,
    Zoom,
    Exposure,
    Iris,
    Focus,
    Other(u128),
}

/// The device-native id of a control. An `Other` id keeps its low 32 bits.
pub open spec fn control_id(ctrl: KnownCameraControl) -> u32 {
    match ctrl {
        KnownCameraControl::Brightness => 9_963_776,
        KnownCameraControl::Contrast => 9_963_777,
        KnownCameraControl::Hue => 9_963_779,
        KnownCameraControl::Saturation => 9_963_778,
        KnownCameraControl::Sharpness => 9_963_803,
        KnownCameraControl::Gamma => 9_963_792,
        KnownCameraControl::WhiteBalance => 9_963_802,
        KnownCameraControl::BacklightComp => 9_963_804,
        KnownCameraControl::Gain => 9_963_795,
        KnownCameraControl::Pan => 10_094_852,
        KnownCameraControl::Tilt => 100_948_530,
        KnownCameraControl::Zoom => 10_094_862,
        KnownCameraControl::Exposure => 10_094_850,
        KnownCameraControl::Iris => 10_094_866,
        KnownCameraControl::Focus => 10_094_859,
        KnownCameraControl::Other(id) => id as u32,
    }
}

/// The control a device-native id stands for; ids without a name are kept
/// as `Other`.
pub open spec fn control_of_id(id: u32) -> KnownCameraControl {
    if id == 9_963_776 {
        KnownCameraControl::Brightness
    } else if id == 9_963_777 {
        KnownCameraControl::Contrast
    } else if id == 9_963_779 {
        KnownCameraControl::Hue
    } else if id == 9_963_778 {
        KnownCameraControl::Saturation
    } else if id == 9_963_803 {
        KnownCameraControl::Sharpness
    } else if id == 9_963_792 {
        KnownCameraControl::Gamma
    } else if id == 9_963_802 {
        KnownCameraControl::WhiteBalance
    } else if id == 9_963_804 {
        KnownCameraControl::BacklightComp
    } else if id == 9_963_795 {
        KnownCameraControl::Gain
    } else if id == 10_094_852 {
        KnownCameraControl::Pan
    } else if id == 100_948_530 {
        KnownCameraControl::Tilt
    } else if id == 10_094_862 {
        KnownCameraControl::Zoom
    } else if id == 10_094_850 {
        KnownCameraControl::Exposure
    } else if id == 10_094_866 {
        KnownCameraControl::Iris
    } else if id == 10_094_859 {
        KnownCameraControl::Focus
    } else {
        KnownCameraControl::Other(id as u128)
    }
}

/// Converts a control to its device-native id.
pub fn known_camera_control_to_id(ctrl: KnownCameraControl) -> (r: u32)
    ensures
        r == control_id(ctrl),
{
    match ctrl {
        KnownCameraControl::Brightness => 9_963_776,
        KnownCameraControl::Contrast => 9_963_777,
        KnownCameraControl::Hue => 9_963_779,
        KnownCameraControl::Saturation => 9_963_778,
        KnownCameraControl::Sharpness => 9_963_803,
        KnownCameraControl::Gamma => 9_963_792,
        KnownCameraControl::WhiteBalance => 9_963_802,
        KnownCameraControl::BacklightComp => 9_963_804,
        KnownCameraControl::Gain => 9_963_795,
        KnownCameraControl::Pan => 10_094_852,
        KnownCameraControl::Tilt => 100_948_530,
        KnownCameraControl::Zoom => 10_094_862,
        KnownCameraControl::Exposure => 10_094_850,
        KnownCameraControl::Iris => 10_094_866,
        KnownCameraControl::Focus => 10_094_859,
        KnownCameraControl::Other(id) => id as u32,
    }
}

/// Converts a device-native id to a control; no id is dropped.
pub fn id_to_known_camera_control(id: u32) -> (r: KnownCameraControl)
    ensures
        r == control_of_id(id),
{
    match id {
        9_963_776 => KnownCameraControl::Brightness,
        9_963_777 => KnownCameraControl::Contrast,
        9_963_779 => KnownCameraControl::Hue,
        9_963_778 => KnownCameraControl::Saturation,
        9_963_803 => KnownCameraControl::Sharpness,
        9_963_792 => KnownCameraControl::Gamma,
        9_963_802 => KnownCameraControl::WhiteBalance,
        9_963_804 => KnownCameraControl::BacklightComp,
        9_963_795 => KnownCameraControl::Gain,
        10_094_852 => KnownCameraControl::Pan,
        100_948_530 => KnownCameraControl::Tilt,
        10_094_862 => KnownCameraControl::Zoom,
        10_094_850 => KnownCameraControl::Exposure,
        10_094_866 => KnownCameraControl::Iris,
        10_094_859 => KnownCameraControl::Focus,
        id => KnownCameraControl::Other(id as u128),
    }
}

/// Every device-native id survives the trip to a control and back; every
/// named control survives the trip to its id and back, and so does an
/// `Other` id that fits in 32 bits and names no known control.
pub proof fn lemma_control_id_round_trip(id: u32, ctrl: KnownCameraControl)
    ensures
        control_id(control_of_id(id)) == id,
        !(ctrl is Other) ==> control_of_id(control_id(ctrl)) == ctrl,
        ctrl is Other && ctrl->Other_0 <= u32::MAX && control_of_id(control_id(ctrl)) is Other
            ==> control_of_id(control_id(ctrl)) == ctrl,
{
    assert((id as u128) as u32 == id);
}

/// The declared data type of a native control.
#[derive(Clone, Copy, Debug, PartialEq, Eq, Structural)]
pub enum ControlType {
    Integer,
    Boolean,
    Menu,
    Button,
    Integer64,
    CtrlClass,
    String,
    Bitmask,
    IntegerMenu,
    U8,
    U16,
    U32,
    Area,
}

/// A native control value as a driver reads or writes it.
#[derive(Debug)]
pub enum ControlValue {
    NoValue,
    Integer(i64),
    Boolean(bool),
    String(String),
    CompoundU8(Vec<u8>),
    CompoundU16(Vec<u16>),
    CompoundU32(Vec<u32>),
    CompoundPtr(Vec<u8>),
}

/// Native control flag bits.
pub const FLAG_DISABLED: u32 = 0x0001;
pub const FLAG_READ_ONLY: u32 = 0x0004;
pub const FLAG_INACTIVE: u32 = 0x0010;
pub const FLAG_WRITE_ONLY: u32 = 0x0040;
pub const FLAG_VOLATILE: u32 = 0x0080;

/// A native control descriptor as a driver reports it.
#[derive(Debug)]
pub struct NativeControlDescription {
    pub id: u32,
    pub typ: ControlType,
    pub name: String,
    pub minimum: i64,
    pub maximum: i64,
    pub step: u64,
    pub default: i64,
    pub flags: u32,
}

/// A native descriptor together with the result of reading its current value.
#[derive(Debug)]
pub struct ControlReading {
    pub description: NativeControlDescription,
    pub current: Result<ControlValue, String>,
}

/// The shape and current value of a control.
#[derive(Debug)]
pub enum ControlValueDescription {
    IntegerRange { min: i64, max: i64, value: i64, step: i64, default: i64 },
    Boolean { value: bool, default: bool },
    String { value: String, default: Option<String> },
}

/// Capability flags of a control.
#[derive(Clone, Copy, Debug, PartialEq, Eq, Structural)]
pub enum KnownCameraControlFlag {
    ReadOnly,
    WriteOnly,
    Disabled,
    Volatile,
}

/// One normalised control.
#[derive(Debug)]
pub struct CameraControl {
    pub control: KnownCameraControl,
    pub name: String,
    pub description: ControlValueDescription,
    pub flag: Vec<KnownCameraControlFlag>,
    pub active: bool,
}

/// A value to write to a control.
#[derive(Clone, Debug)]
pub enum ControlValueSetter {
    NoValue,
    Integer(i64),
    Boolean(bool),
    String(String),
    Bytes(Vec<u8>),
    KeyValue(i128, i128),
    EnumValue(i64),
}

/// Whether the declared type and the value read pair up to a shape this
/// library represents.
pub open spec fn is_representable(typ: ControlType, current: ControlValue) -> bool {
    match current {
        ControlValue::Integer(_) => typ == ControlType::Integer || typ == ControlType::Integer64
            || typ == ControlType::Menu || typ == ControlType::U8 || typ == ControlType::U16
            || typ == ControlType::U32 || typ == ControlType::IntegerMenu,
        ControlValue::Boolean(_) => typ == ControlType::Boolean,
        ControlValue::String(_) => typ == ControlType::String,
        _ => false,
    }
}

/// The value shape of a representable (type, value) pair.
pub open spec fn value_description(
    d: NativeControlDescription,
    current: ControlValue,
) -> ControlValueDescription {
    match current {
        ControlValue::Integer(v) => ControlValueDescription::IntegerRange {
            min: d.minimum,
            max: d.maximum,
            value: v,
            step: d.step as i64,
            default: d.default,
        },
        ControlValue::Boolean(b) => ControlValueDescription::Boolean {
            value: b,
            default: d.default != 0,
        },
        ControlValue::String(s) => ControlValueDescription::String { value: s, default: None },
        _ => arbitrary(),
    }
}

/// The capability flags a native flag word carries, in a fixed order. An
/// inactive control is reported as disabled.
pub open spec fn flags_of(flags: u32) -> Seq<KnownCameraControlFlag> {
    let a = if flags & FLAG_INACTIVE != 0 {
        seq![KnownCameraControlFlag::Disabled]
    } else {
        seq![]
    };
    let b = if flags & FLAG_READ_ONLY != 0 {
        a.push(KnownCameraControlFlag::ReadOnly)
    } else {
        a
    };
    let c = if flags & FLAG_VOLATILE != 0 {
        b.push(KnownCameraControlFlag::Volatile)
    } else {
        b
    };
    let d = if flags & FLAG_DISABLED != 0 {
        c.push(KnownCameraControlFlag::Disabled)
    } else {
        c
    };
    if flags & FLAG_WRITE_ONLY != 0 {
        d.push(KnownCameraControlFlag::WriteOnly)
    } else {
        d
    }
}

/// Whether `c` is the normalised form of descriptor `d` read as `current`.
pub open spec fn describes(c: CameraControl, d: NativeControlDescription, current: ControlValue) -> bool {
    &&& c.control == control_of_id(d.id)
    &&& c.name == d.name
    &&& c.description == value_description(d, current)
    &&& c.flag@ == flags_of(d.flags)
    &&& c.active == (d.flags & FLAG_INACTIVE == 0)
}

fn capability_flags(flags: u32) -> (r: Vec<KnownCameraControlFlag>)
    ensures
        r@ == flags_of(flags),
{
    let mut out: Vec<KnownCameraControlFlag> = Vec::new();
    if flags & FLAG_INACTIVE != 0 {
        out.push(KnownCameraControlFlag::Disabled);
    }
    if flags & FLAG_READ_ONLY != 0 {
        out.push(KnownCameraControlFlag::ReadOnly);
    }
    if flags & FLAG_VOLATILE != 0 {
        out.push(KnownCameraControlFlag::Volatile);
    }
    if flags & FLAG_DISABLED != 0 {
        out.push(KnownCameraControlFlag::Disabled);
    }
    if flags & FLAG_WRITE_ONLY != 0 {
        out.push(KnownCameraControlFlag::WriteOnly);
    }
    assert(out@ =~= flags_of(flags));
    out
}

/// Normalises one native descriptor and its current value. Pairs of a
/// declared type and a value that do not match a known shape give `None`.
pub fn describe_control(d: NativeControlDescription, current: ControlValue) -> (r: Option<
    CameraControl,
>)
    ensures
        r is Some <==> is_representable(d.typ, current),
        r is Some ==> describes(r->Some_0, d, current),
{
    let ghost d0 = d;
    let ghost cur0 = current;
    let representable = match &current {
        ControlValue::Integer(_) => match d.typ {
            ControlType::Integer | ControlType::Integer64 | ControlType::Menu | ControlType::U8
            | ControlType::U16 | ControlType::U32 | ControlType::IntegerMenu => true,
            _ => false,
        },
        ControlValue::Boolean(_) => d.typ == ControlType::Boolean,
        ControlValue::String(_) => d.typ == ControlType::String,
        _ => false,
    };
    if !representable {
        return None;
    }
    let description = match current {
        ControlValue::Integer(v) => ControlValueDescription::IntegerRange {
            min: d.minimum,
            max: d.maximum,
            value: v,
            step: d.step as i64,
            default: d.default,
        },
        ControlValue::Boolean(b) => ControlValueDescription::Boolean {
            value: b,
            default: d.default != 0,
        },
        ControlValue::String(s) => ControlValueDescription::String { value: s, default: None },
        _ => {
            return None;
        },
    };
    let flag = capability_flags(d.flags);
    Some(
        CameraControl {
            control: id_to_known_camera_control(d.id),
            name: d.name,
            description,
            flag,
            active: d.flags & FLAG_INACTIVE == 0,
        },
    )
}

/// The normalised controls of a list of readings, in order: readings that
/// failed or whose shape is not representable are left out.
pub open spec fn kept_readings(rs: Seq<ControlReading>) -> Seq<ControlReading>
    decreases rs.len(),
{
    if rs.len() == 0 {
        seq![]
    } else {
        let rest = kept_readings(rs.drop_last());
        let last = rs.last();
        if last.current is Ok && is_representable(last.description.typ, last.current->Ok_0) {
            rest.push(last)
        } else {
            rest
        }
    }
}

/// Normalises every readable control of a device, in order. A reading that
/// failed, or whose (type, value) pair has no known shape, is left out and
/// does not fail the listing.
pub fn list_controls(readings: Vec<ControlReading>) -> (r: Vec<CameraControl>)
    ensures
        r@.len() == kept_readings(readings@).len(),
        forall|i: int|
            0 <= i < r@.len() ==> describes(
                #[trigger] r@[i],
                kept_readings(readings@)[i].description,
                kept_readings(readings@)[i].current->Ok_0,
            ),
{
    let ghost all = readings@;
    let n = readings.len();
    let mut rest = readings;
    let mut out: Vec<CameraControl> = Vec::new();
    let mut i: usize = 0;
    while rest.len() > 0
        invariant
            i <= all.len(),
            all.len() == n,
            rest@ == all.subrange(i as int, all.len() as int),
            out@.len() == kept_readings(all.subrange(0, i as int)).len(),
            forall|k: int|
                0 <= k < out@.len() ==> describes(
                    #[trigger] out@[k],
                    kept_readings(all.subrange(0, i as int))[k].description,
                    kept_readings(all.subrange(0, i as int))[k].current->Ok_0,
                ),
        decreases rest@.len(),
    {
        assert(rest@.len() == all.len() - i);
        let reading = rest.remove(0);
        let ghost done = all.subrange(0, i + 1);
        assert(done.drop_last() =~= all.subrange(0, i as int));
        assert(reading == all[i as int]);
        assert(done.last() == all[i as int]);
        match reading.current {
            Ok(v) => {
                match describe_control(reading.description, v) {
                    Some(c) => out.push(c),
                    None => {},
                }
            },
            Err(_) => {},
        }
        i += 1;
        assert(rest@ =~= all.subrange(i as int, all.len() as int));
    }
    assert(all.subrange(0, all.len() as int) =~= all);
    out
}

/// Whether a control's current value equals the value that was written.
pub open spec fn holds_value(d: ControlValueDescription, v: ControlValueSetter) -> bool {
    match (d, v) {
        (
            ControlValueDescription::IntegerRange { value, .. },
            ControlValueSetter::Integer(i),
        ) => value == i,
        (ControlValueDescription::Boolean { value, .. }, ControlValueSetter::Boolean(b)) => value
            == b,
        (ControlValueDescription::String { value, .. }, ControlValueSetter::String(s)) => value@
            == s@,
        _ => false,
    }
}

/// How a control is named in messages: its variant name, or `Other(id)`.
pub open spec fn control_name(c: KnownCameraControl) -> Seq<char> {
    match c {
        KnownCameraControl::Brightness => "Brightness"@,
        KnownCameraControl::Contrast => "Contrast"@,
        KnownCameraControl::Hue => "Hue"@,
        KnownCameraControl::Saturation => "Saturation"@,
        KnownCameraControl::Sharpness => "Sharpness"@,
        KnownCameraControl::Gamma => "Gamma"@,
        KnownCameraControl::WhiteBalance => "WhiteBalance"@,
        KnownCameraControl::BacklightComp => "BacklightComp"@,
        KnownCameraControl::Gain => "Gain"@,
        KnownCameraControl::Pan => "Pan"@,
        KnownCameraControl::Tilt => "Tilt"@,
        KnownCameraControl::Zoom => "Zoom"@,
        KnownCameraControl::Exposure => "Exposure"@,
        KnownCameraControl::Iris => "Iris"@,
        KnownCameraControl::Focus => "Focus"@,
        KnownCameraControl::Other(id) => "Other("@ + decimal(id as nat) + ")"@,
    }
}

/// Renders a control's name as `control_name` describes.
pub fn control_name_string(c: KnownCameraControl) -> (r: String)
    ensures
        r@ == control_name(c),
{
    match c {
        KnownCameraControl::Brightness => text("Brightness"),
        KnownCameraControl::Contrast => text("Contrast"),
        KnownCameraControl::Hue => text("Hue"),
        KnownCameraControl::Saturation => text("Saturation"),
        KnownCameraControl::Sharpness => text("Sharpness"),
        KnownCameraControl::Gamma => text("Gamma"),
        KnownCameraControl::WhiteBalance => text("WhiteBalance"),
        KnownCameraControl::BacklightComp => text("BacklightComp"),
        KnownCameraControl::Gain => text("Gain"),
        KnownCameraControl::Pan => text("Pan"),
        KnownCameraControl::Tilt => text("Tilt"),
        KnownCameraControl::Zoom => text("Zoom"),
        KnownCameraControl::Exposure => text("Exposure"),
        KnownCameraControl::Iris => text("Iris"),
        KnownCameraControl::Focus => text("Focus"),
        KnownCameraControl::Other(id) => {
            let mut s = text("Other(");
            push_decimal(&mut s, id);
            push_str(&mut s, ")");
            s
        },
    }
}

pub open spec fn bool_text(b: bool) -> Seq<char> {
    if b {
        "true"@
    } else {
        "false"@
    }
}

/// How a value to write is shown in messages, e.g. `Integer(-3)`.
pub open spec fn setter_text(v: ControlValueSetter) -> Seq<char> {
    match v {
        ControlValueSetter::NoValue => "NoValue"@,
        ControlValueSetter::Integer(i) => "Integer("@ + signed_decimal(i as int) + ")"@,
        ControlValueSetter::Boolean(b) => "Boolean("@ + bool_text(b) + ")"@,
        ControlValueSetter::String(s) => "String("@ + s@ + ")"@,
        ControlValueSetter::Bytes(b) => "Bytes("@ + decimal(b@.len()) + " bytes)"@,
        ControlValueSetter::KeyValue(k, v) => "KeyValue("@ + signed_decimal(k as int) + ", "@
            + signed_decimal(v as int) + ")"@,
        ControlValueSetter::EnumValue(i) => "EnumValue("@ + signed_decimal(i as int) + ")"@,
    }
}

fn push_wide_signed(s: &mut String, i: i128)
    ensures
        final(s)@ == old(s)@ + signed_decimal(i as int),
{
    if i == i128::MIN {
        push_char(s, '-');
        push_decimal(s, 170141183460469231731687303715884105728u128);
        assert(s@ =~= old(s)@ + signed_decimal(i as int));
    } else {
        push_signed(s, i);
    }
}

/// Renders a value to write as `setter_text` describes.
pub fn setter_string(v: &ControlValueSetter) -> (r: String)
    ensures
        r@ == setter_text(*v),
{
    let mut s = String::new();
    match v {
        ControlValueSetter::NoValue => push_str(&mut s, "NoValue"),
        ControlValueSetter::Integer(i) => {
            push_str(&mut s, "Integer(");
            push_wide_signed(&mut s, *i as i128);
            push_str(&mut s, ")");
        },
        ControlValueSetter::Boolean(b) => {
            push_str(&mut s, "Boolean(");
            if *b {
                push_str(&mut s, "true");
            } else {
                push_str(&mut s, "false");
            }
            push_str(&mut s, ")");
        },
        ControlValueSetter::String(t) => {
            push_str(&mut s, "String(");
            push_str(&mut s, t.as_str());
            push_str(&mut s, ")");
        },
        ControlValueSetter::Bytes(b) => {
            push_str(&mut s, "Bytes(");
            push_decimal(&mut s, b.len() as u128);
            push_str(&mut s, " bytes)");
        },
        ControlValueSetter::KeyValue(k, x) => {
            push_str(&mut s, "KeyValue(");
            push_wide_signed(&mut s, *k);
            push_str(&mut s, ", ");
            push_wide_signed(&mut s, *x);
            push_str(&mut s, ")");
        },
        ControlValueSetter::EnumValue(i) => {
            push_str(&mut s, "EnumValue(");
            push_wide_signed(&mut s, *i as i128);
            push_str(&mut s, ")");
        },
    }
    assert(s@ =~= setter_text(*v));
    s
}

pub open spec fn has_control(cs: Seq<CameraControl>, id: KnownCameraControl) -> bool {
    exists|i: int| 0 <= i < cs.len() && (#[trigger] cs[i]).control == id
}

/// `c` is the first control in `cs` with the given id.
pub open spec fn is_first_match(cs: Seq<CameraControl>, id: KnownCameraControl, c: CameraControl) -> bool {
    exists|i: int|
        0 <= i < cs.len() && cs[i] == c && c.control == id && forall|j: int|
            0 <= j < i ==> (#[trigger] cs[j]).control != id
}

/// The error for a control the device does not list: labelled with the
/// control's name, unlike a failed listing, which is labelled
/// `V4L2 Controls`.
pub open spec fn is_not_found(e: NokhwaError, id: KnownCameraControl) -> bool {
    is_get_error(e, control_name(id), "not found/not supported"@)
}

/// The first control with the given id, or a not-found error.
pub fn find_control(controls: Vec<CameraControl>, id: KnownCameraControl) -> (r: Result<
    CameraControl,
    NokhwaError,
>)
    ensures
        r is Ok <==> has_control(controls@, id),
        r is Ok ==> is_first_match(controls@, id, r->Ok_0),
        r is Err ==> is_not_found(r->Err_0, id),
{
    let ghost all = controls@;
    let n = controls.len();
    let mut rest = controls;
    let mut i: usize = 0;
    while rest.len() > 0
        invariant
            i <= all.len(),
            all == controls@,
            all.len() == n,
            rest@ == all.subrange(i as int, all.len() as int),
            forall|j: int| 0 <= j < i ==> (#[trigger] all[j]).control != id,
        decreases rest@.len(),
    {
        assert(rest@.len() == all.len() - i);
        let c = rest.remove(0);
        assert(c == all[i as int]);
        if c.control == id {
            assert(all[i as int].control == id);
            assert(is_first_match(all, id, c));
            return Ok(c);
        }
        i += 1;
        assert(rest@ =~= all.subrange(i as int, all.len() as int));
    }
    Err(
        NokhwaError::GetPropertyError {
            property: control_name_string(id),
            error: text("not found/not supported"),
        },
    )
}

/// The listing of a device's controls: a failed query fails the listing,
/// otherwise each readable control of a known shape is normalised.
pub fn controls_from_query(query: Result<Vec<ControlReading>, String>) -> (r: Result<
    Vec<CameraControl>,
    NokhwaError,
>)
    ensures
        match query {
            Ok(rs) => r is Ok && r->Ok_0@.len() == kept_readings(rs@).len() && forall|i: int|
                0 <= i < r->Ok_0@.len() ==> describes(
                    #[trigger] r->Ok_0@[i],
                    kept_readings(rs@)[i].description,
                    kept_readings(rs@)[i].current->Ok_0,
                ),
            Err(w) => r is Err && is_get_error(r->Err_0, "V4L2 Controls"@, w@),
        },
{
    match query {
        Ok(rs) => Ok(list_controls(rs)),
        Err(w) => Err(NokhwaError::GetPropertyError { property: text("V4L2 Controls"), error: w }),
    }
}

/// The control with the given id in a listing; a failed listing keeps its
/// error, distinct from not finding the control.
pub fn camera_control(
    listing: Result<Vec<CameraControl>, NokhwaError>,
    id: KnownCameraControl,
) -> (r: Result<CameraControl, NokhwaError>)
    ensures
        listing is Err ==> r is Err && r->Err_0 == listing->Err_0,
        listing is Ok ==> (r is Ok <==> has_control(listing->Ok_0@, id)),
        listing is Ok && r is Ok ==> is_first_match(listing->Ok_0@, id, r->Ok_0),
        listing is Ok && r is Err ==> is_not_found(r->Err_0, id),
{
    match listing {
        Ok(cs) => find_control(cs, id),
        Err(e) => Err(e),
    }
}

/// The native value to write for a setter; shapes the driver cannot take
/// are refused before anything is written.
pub fn setter_to_value(id: KnownCameraControl, value: ControlValueSetter) -> (r: Result<
    ControlValue,
    NokhwaError,
>)
    ensures
        match value {
            ControlValueSetter::NoValue => r == Ok::<ControlValue, NokhwaError>(ControlValue::NoValue),
            ControlValueSetter::Integer(i) => r == Ok::<ControlValue, NokhwaError>(
                ControlValue::Integer(i),
            ),
            ControlValueSetter::Boolean(b) => r == Ok::<ControlValue, NokhwaError>(
                ControlValue::Boolean(b),
            ),
            ControlValueSetter::String(s) => r == Ok::<ControlValue, NokhwaError>(
                ControlValue::String(s),
            ),
            ControlValueSetter::Bytes(b) => r == Ok::<ControlValue, NokhwaError>(
                ControlValue::CompoundU8(b),
            ),
            _ => r is Err && is_set_error(
                r->Err_0,
                control_name(id),
                setter_text(value),
                "not supported"@,
            ),
        },
{
    let shown = setter_string(&value);
    match value {
        ControlValueSetter::NoValue => Ok(ControlValue::NoValue),
        ControlValueSetter::Integer(i) => Ok(ControlValue::Integer(i)),
        ControlValueSetter::Boolean(b) => Ok(ControlValue::Boolean(b)),
        ControlValueSetter::String(s) => Ok(ControlValue::String(s)),
        ControlValueSetter::Bytes(b) => Ok(ControlValue::CompoundU8(b)),
        _ => Err(
            NokhwaError::SetPropertyError {
                property: control_name_string(id),
                value: shown,
                error: text("not supported"),
            },
        ),
    }
}

/// Whether a control currently holds `v`.
pub fn control_holds(d: &ControlValueDescription, v: &ControlValueSetter) -> (r: bool)
    ensures
        r == holds_value(*d, *v),
{
    match (d, v) {
        (
            ControlValueDescription::IntegerRange { value, .. },
            ControlValueSetter::Integer(i),
        ) => *value == *i,
        (ControlValueDescription::Boolean { value, .. }, ControlValueSetter::Boolean(b)) => *value
            == *b,
        (ControlValueDescription::String { value, .. }, ControlValueSetter::String(s)) => *value
            == *s,
        _ => false,
    }
}

/// The outcome of writing a control, before it is read back: a refused
/// write is reported with the control's name and the driver's message.
pub fn control_write_result(
    id: KnownCameraControl,
    requested: &ControlValueSetter,
    write: Result<(), String>,
) -> (r: Result<(), NokhwaError>)
    ensures
        write is Ok <==> r is Ok,
        write is Err ==> is_set_error(
            r->Err_0,
            control_name(id),
            setter_text(*requested),
            write->Err_0@,
        ),
{
    match write {
        Ok(()) => Ok(()),
        Err(w) => Err(
            NokhwaError::SetPropertyError {
                property: control_name_string(id),
                value: setter_string(requested),
                error: w,
            },
        ),
    }
}

/// Verifies a control write by reading the control back: a failed re-read
/// keeps its error, and a control that does not hold the written value
/// afterwards is a rejection. Nothing is rolled back.
pub fn check_control_write(
    id: KnownCameraControl,
    requested: &ControlValueSetter,
    readback: Result<CameraControl, NokhwaError>,
) -> (r: Result<(), NokhwaError>)
    ensures
        readback is Err ==> r is Err && r->Err_0 == readback->Err_0,
        readback is Ok ==> (r is Ok <==> holds_value(readback->Ok_0.description, *requested)),
        readback is Ok && r is Err ==> is_set_error(
            r->Err_0,
            control_name(id),
            setter_text(*requested),
            "Rejected"@,
        ),
{
    match readback {
        Err(e) => Err(e),
        Ok(c) => {
            if control_holds(&c.description, requested) {
                Ok(())
            } else {
                Err(
                    NokhwaError::SetPropertyError {
                        property: control_name_string(id),
                        value: setter_string(requested),
                        error: text("Rejected"),
                    },
                )
            }
        },
    }
}

} // verus!
