use ear_api::gestures::{
    action_code, action_name, device_code, device_name, gesture_type_code, gesture_type_name,
};

#[test]
fn names_round_trip() {
    for code in [1u8, 8, 9, 10, 11, 18, 19, 20, 21, 22] {
        let name = action_name(code).expect("known action");
        assert_eq!(action_code(name), Some(code));
    }
    for code in [2u8, 3, 7, 9] {
        let name = gesture_type_name(code).expect("known gesture type");
        assert_eq!(gesture_type_code(name), Some(code));
    }
    for code in [0x02u8, 0x03, 0x04] {
        let name = device_name(code).expect("known device");
        assert_eq!(device_code(name), Some(code));
    }
}

#[test]
fn unknown_codes_are_none() {
    assert_eq!(action_name(99), None);
    assert_eq!(gesture_type_name(0), None);
    assert_eq!(device_name(0x05), None);
}

#[test]
fn every_byte_with_a_name_is_found_again() {
    for code in 0..=255u8 {
        if let Some(name) = action_name(code) {
            assert_eq!(action_code(name), Some(code));
        }
        if let Some(name) = gesture_type_name(code) {
            assert_eq!(gesture_type_code(name), Some(code));
        }
        if let Some(name) = device_name(code) {
            assert_eq!(device_code(name), Some(code));
        }
    }
}

#[test]
fn names_are_exact() {
    assert_eq!(device_name(0x02), Some("left"));
    assert_eq!(device_name(0x04), Some("case"));
    assert_eq!(gesture_type_name(9), Some("double_hold"));
    assert_eq!(action_name(22), Some("noise_control_anc_transparency"));
    assert_eq!(action_code("volume_up"), Some(18));
    assert_eq!(action_code("Volume_Up"), None);
    assert_eq!(device_code("left "), None);
    assert_eq!(gesture_type_code(""), None);
}
