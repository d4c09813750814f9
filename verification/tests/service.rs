use ear_api::error::EarError;
use ear_api::models::ModelBase;
use ear_api::protocol::{response, EarPacket};
use ear_api::service::{
    anc_from_packet, anc_payload, battery_from_packet, custom_eq_from_packet, decode_custom_eq,
    derive_sku_from_serial, descriptor_for_id, descriptor_for_sku, detect_serial_identity,
    ear_fit_from_packet, encode_custom_eq, enhanced_bass_from_packet, enhanced_bass_payload,
    eq_from_packet, eq_level_bits, eq_level_bytes, eq_mode_payload, firmware_from_packet,
    firmware_version, gesture_payload, gestures_from_packet, in_ear_from_packet, in_ear_payload,
    latency_from_packet, latency_payload, led_colors_from_packet, led_colors_payload, model_base,
    parse_battery_payload, parse_gestures, parse_led_colors, parse_serial_number,
    personalized_anc_from_packet, personalized_anc_payload, ring_payload, serial_from_text,
    serial_payload_from_packet, serial_sku_readable, CustomEqBits, Feature, ModelDescriptor,
    SessionSlot,
};
use ear_api::types::{
    AncLevel, BatteryReading, EarSide, EnhancedBassState, EqMode, GestureSlot, LedColor,
    LedColorSet,
};

fn packet(command: u16, payload: &[u8]) -> EarPacket {
    EarPacket { command, operation_id: 0, payload: payload.to_vec() }
}

#[test]
fn battery_payload_reads_each_device() {
    let status = parse_battery_payload(&[3, 0x02, 0x64, 0x03, 0xB2, 0x04, 0x10]);
    assert_eq!(status.left, BatteryReading::Level { percent: 100, charging: false });
    assert_eq!(status.right, BatteryReading::Level { percent: 0x32, charging: true });
    assert_eq!(status.case, BatteryReading::Level { percent: 0x10, charging: false });
}

#[test]
fn battery_payload_stops_at_short_entries_and_ignores_unknown_devices() {
    let status = parse_battery_payload(&[3, 0x07, 0x50, 0x02, 0x20, 0x03]);
    assert_eq!(status.left, BatteryReading::Level { percent: 0x20, charging: false });
    assert_eq!(status.right, BatteryReading::Disconnected);
    assert_eq!(status.case, BatteryReading::Disconnected);
    let empty = parse_battery_payload(&[]);
    assert_eq!(empty.left, BatteryReading::Disconnected);
    let counted = parse_battery_payload(&[1, 0x02, 0x10, 0x03, 0x20]);
    assert_eq!(counted.right, BatteryReading::Disconnected);
}

#[test]
fn gestures_payload_reads_whole_slots() {
    let slots = parse_gestures(&[2, 0x02, 1, 2, 8, 0x03, 1, 7, 11]);
    assert_eq!(
        slots,
        vec![
            GestureSlot { device: 2, common: 1, gesture_type: 2, action: 8 },
            GestureSlot { device: 3, common: 1, gesture_type: 7, action: 11 },
        ]
    );
    assert_eq!(parse_gestures(&[2, 0x02, 1, 2, 8, 0x03, 1, 7]).len(), 1);
    assert!(parse_gestures(&[]).is_empty());
    assert!(parse_gestures(&[0, 1, 2, 3, 4]).is_empty());
}

#[test]
fn led_payload_reads_colours_after_index_bytes() {
    let set = parse_led_colors(&[2, 1, 0xFF, 0x00, 0x10, 2, 0x01, 0x02, 0x03]);
    assert_eq!(set.pixels.len(), 2);
    assert_eq!(set.pixels[0].0, [0xFF, 0x00, 0x10]);
    assert_eq!(set.pixels[1].0, [0x01, 0x02, 0x03]);
    assert_eq!(parse_led_colors(&[2, 1, 0xFF, 0x00, 0x10, 2, 0x01, 0x02]).pixels.len(), 1);
    assert!(parse_led_colors(&[]).pixels.is_empty());
}

fn serial_payload(text: &str) -> Vec<u8> {
    let mut p = vec![0u8; 7];
    p.extend_from_slice(text.as_bytes());
    p
}

#[test]
fn serial_number_is_the_third_field_of_a_type_4_line() {
    let p = serial_payload("1,2,abc\r\n2, 4 , SH1021ABCDEF \r\n3,4,other\n");
    assert_eq!(parse_serial_number(&p), Some("SH1021ABCDEF".to_string()));
    assert_eq!(parse_serial_number(&serial_payload("1,4,\n2,4,X")), Some("X".to_string()));
    assert_eq!(parse_serial_number(&serial_payload("1,4,A,B\n")), None);
    assert_eq!(parse_serial_number(&[0; 7]), None);
    assert_eq!(serial_from_text("x,4,\u{3000}Z\u{a0}"), Some("Z".to_string()));
    assert_eq!(serial_from_text("x,44,Z"), None);
}

#[test]
fn sku_is_derived_from_the_serial() {
    assert_eq!(derive_sku_from_serial("12345678901234567"), Some("01".to_string()));
    assert_eq!(derive_sku_from_serial("MA123422XYZ"), Some("14".to_string()));
    assert_eq!(derive_sku_from_serial("MA123423"), Some("14".to_string()));
    assert_eq!(derive_sku_from_serial("MA123424"), Some("11200005".to_string()));
    assert_eq!(derive_sku_from_serial("MA123425"), None);
    assert_eq!(derive_sku_from_serial("SH1021ABC"), Some("21".to_string()));
    assert_eq!(derive_sku_from_serial("13xx55"), Some("55".to_string()));
    assert_eq!(derive_sku_from_serial("SH10"), None);
    assert_eq!(derive_sku_from_serial("XY1234"), None);
    assert!(serial_sku_readable("MA123456"));
    assert!(!serial_sku_readable("MA12345"));
    assert!(!serial_sku_readable("MA1234"));
    assert!(!serial_sku_readable("M\u{e9}1234"));
}

#[test]
fn detection_finds_the_model_of_the_serial() {
    let detection = detect_serial_identity(&serial_payload("1,4,SH1021ABCDEF\n")).expect("readable");
    assert_eq!(detection.identity.serial_number.as_deref(), Some("SH1021ABCDEF"));
    assert_eq!(detection.identity.sku.as_deref(), Some("21"));
    assert_eq!(detection.identity.model_id.as_deref(), Some("feraligatr_black"));
    let model = detection.model.expect("known sku");
    assert_eq!(model.base, ModelBase::B173);
    assert_eq!(model.name.as_deref(), Some("Nothing Ear (3)"));
    assert_eq!(model.sku.as_deref(), Some("21"));
    assert_eq!(model.serial.as_deref(), Some("SH1021ABCDEF"));

    let unknown = detect_serial_identity(&serial_payload("1,4,SH1099ABCDEF\n")).expect("readable");
    assert_eq!(unknown.identity.sku.as_deref(), Some("99"));
    assert!(unknown.identity.model_id.is_none());
    assert!(unknown.model.is_none());

    let none = detect_serial_identity(&serial_payload("nothing here")).expect("readable");
    assert!(none.identity.serial_number.is_none());
    assert!(none.identity.sku.is_none());

    assert!(detect_serial_identity(&serial_payload("1,4,MA1234\n")).is_none());
}

#[test]
fn firmware_version_is_trimmed_text() {
    assert_eq!(firmware_version(b"  1.0.2.45\n"), "1.0.2.45");
    assert_eq!(firmware_version(&[0x31, 0xFF, 0x32]), "1\u{fffd}2");
    let p = packet(response::FIRMWARE, b"2.0 ");
    assert_eq!(firmware_from_packet(&p).expect("firmware").version, "2.0");
    assert!(firmware_from_packet(&packet(response::LATENCY, b"2.0")).is_none());
}

#[test]
fn answers_are_decoded_by_command() {
    let b = battery_from_packet(&packet(response::BATTERY_SECONDARY, &[1, 0x04, 0x85]));
    assert_eq!(b.expect("battery").case, BatteryReading::Level { percent: 5, charging: true });
    assert!(battery_from_packet(&packet(response::ANC_PRIMARY, &[1, 0x04, 0x85])).is_none());

    assert_eq!(anc_from_packet(&packet(response::ANC_SECONDARY, &[1, 0x07])), Some(AncLevel::Transparency));
    assert_eq!(anc_from_packet(&packet(response::ANC_PRIMARY, &[1, 0x09])), None);
    assert_eq!(anc_from_packet(&packet(response::ANC_PRIMARY, &[1])), None);

    assert_eq!(eq_from_packet(&packet(response::EQ_LISTENING_MODE, &[3, 9])), Some(EqMode { mode: 3 }));
    assert_eq!(eq_from_packet(&packet(response::EQ_PRIMARY, &[])), None);

    assert_eq!(
        enhanced_bass_from_packet(&packet(response::ENHANCED_BASS, &[1, 9])),
        Some(EnhancedBassState { enabled: true, level: 4 })
    );
    assert_eq!(
        enhanced_bass_from_packet(&packet(response::ENHANCED_BASS, &[])),
        Some(EnhancedBassState { enabled: false, level: 0 })
    );

    assert!(personalized_anc_from_packet(&packet(response::PERSONALIZED_ANC, &[1])).unwrap().enabled);
    assert!(!personalized_anc_from_packet(&packet(response::PERSONALIZED_ANC, &[2])).unwrap().enabled);
    assert!(in_ear_from_packet(&packet(response::IN_EAR, &[1, 1, 1])).unwrap().detection_enabled);
    assert!(in_ear_from_packet(&packet(response::IN_EAR, &[1, 1])).is_none());
    assert!(latency_from_packet(&packet(response::LATENCY, &[1])).unwrap().low_latency_enabled);
    assert!(!latency_from_packet(&packet(response::LATENCY, &[2])).unwrap().low_latency_enabled);

    let fit = ear_fit_from_packet(&packet(response::EAR_FIT_RESULT, &[1])).expect("fit");
    assert_eq!((fit.left, fit.right), (1, 0));

    let g = gestures_from_packet(&packet(response::GESTURES, &[1, 2, 1, 2, 8])).expect("gestures");
    assert_eq!(g.len(), 1);
    let l = led_colors_from_packet(&packet(response::LED_CASE_COLORS, &[1, 1, 9, 8, 7])).expect("leds");
    assert_eq!(l.pixels[0].0, [9, 8, 7]);
    assert_eq!(serial_payload_from_packet(&packet(response::SERIAL, &[5, 6])), Some(vec![5, 6]));
    assert_eq!(serial_payload_from_packet(&packet(response::FIRMWARE, &[5, 6])), None);
}

#[test]
fn command_payloads() {
    assert_eq!(anc_payload(AncLevel::NoiseCancellationMid), [0x01, 0x02, 0x00]);
    assert_eq!(eq_mode_payload(4), [4, 0]);
    assert_eq!(enhanced_bass_payload(true, 3), [1, 6]);
    assert_eq!(enhanced_bass_payload(false, 200), [0, 255]);
    assert_eq!(personalized_anc_payload(true), [1]);
    assert_eq!(in_ear_payload(false), [1, 1, 0]);
    assert_eq!(latency_payload(true), [1, 0]);
    assert_eq!(latency_payload(false), [2, 0]);
    let slot = GestureSlot { device: 2, common: 1, gesture_type: 9, action: 20 };
    assert_eq!(gesture_payload(&slot), [1, 2, 1, 9, 20]);
    let colors = LedColorSet { pixels: vec![LedColor([1, 2, 3]), LedColor([4, 5, 6])] };
    assert_eq!(led_colors_payload(&colors), vec![2, 1, 1, 2, 3, 2, 4, 5, 6]);
    assert_eq!(ring_payload(ModelBase::B181, true, Some(EarSide::Left)), vec![1]);
    assert_eq!(ring_payload(ModelBase::B173, true, Some(EarSide::Left)), vec![2, 1]);
    assert_eq!(ring_payload(ModelBase::B173, false, None), vec![3, 0]);
    assert_eq!(ring_payload(ModelBase::Unknown, true, Some(EarSide::Case)), vec![3, 1]);
}

#[test]
fn led_payload_wraps_counts() {
    let colors = LedColorSet { pixels: vec![LedColor([0, 0, 0]); 256] };
    let p = led_colors_payload(&colors);
    assert_eq!(p.len(), 1 + 4 * 256);
    assert_eq!(p[0], 0);
    assert_eq!(p[1 + 4 * 255], 0);
    assert_eq!(p[1 + 4 * 254], 255);
}

#[test]
fn custom_eq_levels() {
    assert_eq!(eq_level_bits(&[0x00, 0x00, 0x80, 0x3f]), 0x3f80_0000);
    assert_eq!(eq_level_bits(&[0x85, 0x00, 0x00, 0x00]), 0x8000_0005);
    assert_eq!(eq_level_bits(&[0x85, 0x00, 0x00]), 0);
    assert_eq!(eq_level_bytes(0x3f80_0000, true), [0x00, 0x00, 0x80, 0x3f]);
    assert_eq!(eq_level_bytes(5, true), [0x85, 0, 0, 0]);
    assert_eq!(eq_level_bytes(0, false), [0, 0, 0, 0]);

    let payload = encode_custom_eq([0, 0, 0, 0x80], [1, 0, 0, 0x40], [2, 0, 0, 0x40], [3, 0, 0, 0x40]);
    assert_eq!(payload.len(), 53);
    assert_eq!(&payload[1..5], &[0, 0, 0, 0x80]);
    assert_eq!(&payload[12..18], &[0x75, 0x44, 0xc3, 0xf5, 0x28, 0x3f]);
    let levels = decode_custom_eq(&payload).expect("long enough");
    assert_eq!(levels, CustomEqBits { mid: 0x4000_0001, treble: 0x4000_0002, bass: 0x4000_0003 });
    assert_eq!(decode_custom_eq(&payload[..44]), None);
    assert_eq!(custom_eq_from_packet(&packet(response::CUSTOM_EQ, &payload)), Some(levels));
    assert_eq!(custom_eq_from_packet(&packet(response::EQ_PRIMARY, &payload)), None);
}

#[test]
fn model_descriptors() {
    let d = descriptor_for_id("espeon_blue").expect("known id");
    assert_eq!(d.base, ModelBase::B172);
    assert_eq!(d.model_id.as_deref(), Some("espeon_blue"));
    assert_eq!(d.name.as_deref(), Some("CMF Buds Pro 2"));
    assert!(d.sku.is_none());
    assert!(matches!(descriptor_for_id("nope"), Err(EarError::UnknownModel)));
    let s = descriptor_for_sku("56", Some("SER".to_string())).expect("known sku");
    assert_eq!(s.model_id.as_deref(), Some("donphan_white"));
    assert_eq!(s.sku.as_deref(), Some("56"));
    assert_eq!(s.serial.as_deref(), Some("SER"));
    assert!(matches!(descriptor_for_sku("00", None), Err(EarError::UnknownModel)));
    let summary = s.summary();
    assert_eq!(summary.id.as_deref(), Some("donphan_white"));
    assert_eq!(summary.serial_number.as_deref(), Some("SER"));
    assert_eq!(summary.base, ModelBase::B168);
    let unknown = ModelDescriptor::default();
    assert_eq!(unknown.base, ModelBase::Unknown);
    assert_eq!(model_base(&None), ModelBase::Unknown);
    assert_eq!(model_base(&Some(s)), ModelBase::B168);
}

#[test]
fn features_are_checked_against_the_family() {
    assert!(Feature::AncRead.require(ModelBase::B155).is_ok());
    assert!(matches!(Feature::AncWrite.require(ModelBase::B157), Err(EarError::Unsupported("ANC write"))));
    assert!(matches!(Feature::CaseLed.require(ModelBase::Unknown), Err(EarError::Unsupported("case led color"))));
    assert!(Feature::InEarDetection.require(ModelBase::Unknown).is_ok());
    assert!(matches!(Feature::CustomEq.require(ModelBase::B181), Err(EarError::Unsupported("custom EQ"))));
}

#[test]
fn one_session_at_a_time() {
    let mut slot: SessionSlot<u32> = SessionSlot::new();
    assert!(matches!(slot.current(), Err(EarError::NoSession)));
    assert!(matches!(slot.close(), Err(EarError::NoSession)));
    assert!(slot.open(1).is_ok());
    assert!(matches!(slot.open(2), Err(EarError::AlreadyConnected)));
    assert_eq!(*slot.current().unwrap(), 1);
    assert!(slot.close().is_ok());
    assert!(slot.open(2).is_ok());
    assert_eq!(*slot.current().unwrap(), 2);
}
