use nokhwa_capture::controls::{
    camera_control, check_control_write, control_name_string, setter_string, control_holds, control_write_result, controls_from_query, describe_control,
    find_control, id_to_known_camera_control, known_camera_control_to_id, list_controls,
    setter_to_value, CameraControl, ControlReading, ControlType, ControlValue,
    ControlValueDescription, ControlValueSetter, KnownCameraControl, KnownCameraControlFlag,
    NativeControlDescription, FLAG_DISABLED, FLAG_INACTIVE, FLAG_READ_ONLY, FLAG_VOLATILE,
    FLAG_WRITE_ONLY,
};
use nokhwa_capture::types::NokhwaError;

const NAMED: [KnownCameraControl; 15] = [
    KnownCameraControl::Brightness,
    KnownCameraControl::Contrast,
    KnownCameraControl::Hue,
    KnownCameraControl::Saturation,
    KnownCameraControl::Sharpness,
    KnownCameraControl::Gamma,
    KnownCameraControl::WhiteBalance,
    KnownCameraControl::BacklightComp,
    KnownCameraControl::Gain,
    KnownCameraControl::Pan,
    KnownCameraControl::Tilt,
    KnownCameraControl::Zoom,
    KnownCameraControl::Exposure,
    KnownCameraControl::Iris,
    KnownCameraControl::Focus,
];

#[test]
fn control_ids_round_trip() {
    for c in NAMED {
        let id = known_camera_control_to_id(c);
        assert_eq!(id_to_known_camera_control(id), c);
        assert_eq!(known_camera_control_to_id(id_to_known_camera_control(id)), id);
    }
    for id in [0u32, 1, 9_963_780, 10_094_849, u32::MAX] {
        assert_eq!(known_camera_control_to_id(id_to_known_camera_control(id)), id);
    }
    assert_eq!(id_to_known_camera_control(42), KnownCameraControl::Other(42));
    assert_eq!(known_camera_control_to_id(KnownCameraControl::Brightness), 9_963_776);
    assert_eq!(known_camera_control_to_id(KnownCameraControl::Other(7)), 7);
}

fn desc(id: u32, typ: ControlType, flags: u32) -> NativeControlDescription {
    NativeControlDescription {
        id,
        typ,
        name: "ctrl".to_string(),
        minimum: -10,
        maximum: 10,
        step: 2,
        default: 1,
        flags,
    }
}

#[test]
fn integer_control_is_a_range() {
    let c = describe_control(desc(9_963_776, ControlType::Menu, 0), ControlValue::Integer(4)).unwrap();
    assert_eq!(c.control, KnownCameraControl::Brightness);
    assert_eq!(c.name, "ctrl");
    assert!(matches!(
        c.description,
        ControlValueDescription::IntegerRange { min: -10, max: 10, value: 4, step: 2, default: 1 }
    ));
    assert!(c.flag.is_empty());
    assert!(c.active);
}

#[test]
fn boolean_and_string_controls() {
    let b = describe_control(desc(5, ControlType::Boolean, 0), ControlValue::Boolean(false)).unwrap();
    assert!(matches!(b.description, ControlValueDescription::Boolean { value: false, default: true }));
    let s = describe_control(desc(6, ControlType::String, 0), ControlValue::String("abc".to_string()))
        .unwrap();
    match s.description {
        ControlValueDescription::String { value, default } => {
            assert_eq!(value, "abc");
            assert_eq!(default, None);
        }
        _ => panic!("not a string"),
    }
}

#[test]
fn mismatched_shape_is_unsupported() {
    assert!(describe_control(desc(5, ControlType::Boolean, 0), ControlValue::Integer(1)).is_none());
    assert!(describe_control(desc(5, ControlType::Button, 0), ControlValue::NoValue).is_none());
    assert!(describe_control(desc(5, ControlType::U8, 0), ControlValue::CompoundU8(vec![1])).is_none());
}

#[test]
fn flags_and_inactive() {
    let all = FLAG_INACTIVE | FLAG_READ_ONLY | FLAG_VOLATILE | FLAG_DISABLED | FLAG_WRITE_ONLY;
    let c = describe_control(desc(1, ControlType::Integer, all), ControlValue::Integer(0)).unwrap();
    assert_eq!(
        c.flag,
        vec![
            KnownCameraControlFlag::Disabled,
            KnownCameraControlFlag::ReadOnly,
            KnownCameraControlFlag::Volatile,
            KnownCameraControlFlag::Disabled,
            KnownCameraControlFlag::WriteOnly
        ]
    );
    assert!(!c.active);
    let ro = describe_control(desc(1, ControlType::Integer, FLAG_READ_ONLY), ControlValue::Integer(0)).unwrap();
    assert_eq!(ro.flag, vec![KnownCameraControlFlag::ReadOnly]);
    assert!(ro.active);
}

fn reading(id: u32, typ: ControlType, current: Result<ControlValue, String>) -> ControlReading {
    ControlReading { description: desc(id, typ, 0), current }
}

#[test]
fn listing_skips_unreadable_and_unsupported() {
    let rs = vec![
        reading(9_963_777, ControlType::Integer, Ok(ControlValue::Integer(3))),
        reading(2, ControlType::Integer, Err("io".to_string())),
        reading(3, ControlType::Button, Ok(ControlValue::NoValue)),
        reading(10_094_859, ControlType::Boolean, Ok(ControlValue::Boolean(true))),
    ];
    let cs = list_controls(rs);
    assert_eq!(cs.len(), 2);
    assert_eq!(cs[0].control, KnownCameraControl::Contrast);
    assert_eq!(cs[1].control, KnownCameraControl::Focus);
}

#[test]
fn failed_control_query_is_property_error() {
    let r = controls_from_query(Err("denied".to_string()));
    match r {
        Err(NokhwaError::GetPropertyError { property, error }) => {
            assert_eq!(property, "V4L2 Controls");
            assert_eq!(error, "denied");
        }
        other => panic!("unexpected {:?}", other),
    }
}

fn listed() -> Vec<CameraControl> {
    list_controls(vec![
        reading(9_963_776, ControlType::Integer, Ok(ControlValue::Integer(3))),
        reading(9_963_776, ControlType::Integer, Ok(ControlValue::Integer(9))),
    ])
}

#[test]
fn lookup_finds_first_or_not_found() {
    let c = find_control(listed(), KnownCameraControl::Brightness).unwrap();
    assert!(matches!(c.description, ControlValueDescription::IntegerRange { value: 3, .. }));
    match find_control(listed(), KnownCameraControl::Gain) {
        Err(NokhwaError::GetPropertyError { property, error }) => {
            assert_eq!(property, "Gain");
            assert_eq!(error, "not found/not supported");
        }
        other => panic!("unexpected {:?}", other),
    }
    let failed = camera_control(Err(NokhwaError::ReadFrameError("x".to_string())), KnownCameraControl::Gain);
    assert!(matches!(failed, Err(NokhwaError::ReadFrameError(_))));
}

#[test]
fn setter_conversion() {
    assert!(matches!(setter_to_value(KnownCameraControl::Gain, ControlValueSetter::Integer(5)), Ok(ControlValue::Integer(5))));
    assert!(matches!(setter_to_value(KnownCameraControl::Gain, ControlValueSetter::NoValue), Ok(ControlValue::NoValue)));
    match setter_to_value(KnownCameraControl::Gain, ControlValueSetter::Bytes(vec![1, 2])) {
        Ok(ControlValue::CompoundU8(b)) => assert_eq!(b, vec![1, 2]),
        other => panic!("unexpected {:?}", other),
    }
    match setter_to_value(KnownCameraControl::Gain, ControlValueSetter::KeyValue(1, -2)) {
        Err(NokhwaError::SetPropertyError { property, value, error }) => {
            assert_eq!(property, "Gain");
            assert_eq!(value, "KeyValue(1, -2)");
            assert_eq!(error, "not supported");
        }
        other => panic!("unexpected {:?}", other),
    }
    assert!(matches!(
        setter_to_value(KnownCameraControl::Gain, ControlValueSetter::EnumValue(1)),
        Err(NokhwaError::SetPropertyError { .. })
    ));
}

#[test]
fn control_write_is_read_back() {
    let requested = ControlValueSetter::Integer(3);
    let back = find_control(listed(), KnownCameraControl::Brightness);
    assert!(check_control_write(KnownCameraControl::Brightness, &requested, back).is_ok());
    let clamped = find_control(listed(), KnownCameraControl::Brightness);
    match check_control_write(KnownCameraControl::Brightness, &ControlValueSetter::Integer(100), clamped) {
        Err(NokhwaError::SetPropertyError { property, value, error }) => {
            assert_eq!(property, "Brightness");
            assert_eq!(value, "Integer(100)");
            assert_eq!(error, "Rejected");
        }
        other => panic!("unexpected {:?}", other),
    }
    assert!(control_write_result(KnownCameraControl::Brightness, &requested, Ok(())).is_ok());
    let refused = control_write_result(KnownCameraControl::Other(77), &ControlValueSetter::Boolean(true), Err("EINVAL".to_string()));
    match refused {
        Err(NokhwaError::SetPropertyError { property, value, error }) => {
            assert_eq!(property, "Other(77)");
            assert_eq!(value, "Boolean(true)");
            assert_eq!(error, "EINVAL");
        }
        other => panic!("unexpected {:?}", other),
    }
    let s = ControlValueDescription::String { value: "on".to_string(), default: None };
    assert!(control_holds(&s, &ControlValueSetter::String("on".to_string())));
    assert!(!control_holds(&s, &ControlValueSetter::Boolean(true)));
}

#[test]
fn setter_values_are_shown() {
    assert_eq!(setter_string(&ControlValueSetter::Integer(-3)), "Integer(-3)");
    assert_eq!(setter_string(&ControlValueSetter::String("on".to_string())), "String(on)");
    assert_eq!(setter_string(&ControlValueSetter::Bytes(vec![1, 2, 3])), "Bytes(3 bytes)");
    assert_eq!(setter_string(&ControlValueSetter::EnumValue(i64::MIN)), "EnumValue(-9223372036854775808)");
    assert_eq!(setter_string(&ControlValueSetter::NoValue), "NoValue");
    assert_eq!(control_name_string(KnownCameraControl::WhiteBalance), "WhiteBalance");
    assert_eq!(control_name_string(KnownCameraControl::Other(0)), "Other(0)");
}
