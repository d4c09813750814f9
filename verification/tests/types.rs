use ear_api::types::{AncLevel, BatteryReading, BatteryStatus, EarSide, GestureSlot, GestureSlotNamed};

const LEVELS: [AncLevel; 6] = [
    AncLevel::Off,
    AncLevel::Transparency,
    AncLevel::NoiseCancellationLow,
    AncLevel::NoiseCancellationHigh,
    AncLevel::NoiseCancellationMid,
    AncLevel::NoiseCancellationAdaptive,
];

#[test]
fn anc_device_bytes_round_trip() {
    for level in LEVELS {
        assert_eq!(AncLevel::from_device(level.to_device()), Some(level));
    }
    for value in 0..=255u8 {
        if let Some(level) = AncLevel::from_device(value) {
            assert_eq!(level.to_device(), value);
        }
    }
    assert_eq!(AncLevel::Off.to_device(), 0x05);
    assert_eq!(AncLevel::from_device(0x01), Some(AncLevel::NoiseCancellationHigh));
    assert_eq!(AncLevel::from_device(0x06), None);
}

#[test]
fn anc_labels_parse_back() {
    for level in LEVELS {
        assert_eq!(level.label().parse::<AncLevel>(), Ok(level));
    }
    assert_eq!("Transparent".parse::<AncLevel>(), Ok(AncLevel::Transparency));
    assert_eq!("HIGH".parse::<AncLevel>(), Ok(AncLevel::NoiseCancellationHigh));
    assert_eq!("mid".parse::<AncLevel>(), Ok(AncLevel::NoiseCancellationMid));
    assert_eq!(AncLevel::NoiseCancellationLow.label(), "nc-low");
    assert_eq!("loud".parse::<AncLevel>(), Err("invalid ANC level"));
}

#[test]
fn ear_side_labels_parse_back() {
    for side in [EarSide::Left, EarSide::Right, EarSide::Case] {
        assert_eq!(side.label().parse::<EarSide>(), Ok(side));
    }
    assert_eq!("RIGHT".parse::<EarSide>(), Ok(EarSide::Right));
    assert_eq!("middle".parse::<EarSide>(), Err("invalid ear side"));
}

#[test]
fn empty_battery_status_has_nothing() {
    let s = BatteryStatus::empty();
    assert_eq!(s.left, BatteryReading::Disconnected);
    assert_eq!(s.right, BatteryReading::Disconnected);
    assert_eq!(s.case, BatteryReading::Disconnected);
}

#[test]
fn gesture_slot_gets_its_names() {
    let slot = GestureSlot { device: 0x03, common: 1, gesture_type: 7, action: 11 };
    let named = GestureSlotNamed::from(slot);
    assert_eq!(named.device_name, Some("right"));
    assert_eq!(named.gesture_name, Some("hold"));
    assert_eq!(named.action_name, Some("voice_assistant"));
    let unknown = GestureSlotNamed::from(GestureSlot { device: 9, common: 1, gesture_type: 1, action: 2 });
    assert_eq!(unknown.device_name, None);
    assert_eq!(unknown.gesture_name, None);
    assert_eq!(unknown.action_name, None);
    assert_eq!(unknown.slot, GestureSlot { device: 9, common: 1, gesture_type: 1, action: 2 });
}
