//! Tests of the report codec: construction, the factory image, the
//! trailing-clear operation, and the field round trip.

use falcon8::{Brightness, Flow, KeyCode, LEDMode, Layer, Mode, Report, ReportData};

/// The factory-default 264-byte image, written out literally.
fn factory_default_image() -> [u8; 264] {
    [
        0x07, 0x02, 0x01, 0x00, 0x00, 0x00, 0x00, 0x00, 0xa9, 0xa4, 0xbb, 0x00, 0x00, 0xa7, 0xa6, 0xbc,
        0x00, 0x00, 0xa5, 0xa8, 0xb9, 0x00, 0x00, 0xab, 0xaa, 0x00, 0x00, 0x00, 0x00, 0x00, 0x00, 0x00,
        0x00, 0x00, 0x00, 0x00, 0x00, 0x00, 0x00, 0x00, 0x00, 0x00, 0x00, 0x00, 0x00, 0x00, 0x00, 0x00,
        0x00, 0x00, 0x00, 0x00, 0x00, 0x00, 0x00, 0x00, 0x00, 0x00, 0xff, 0xff, 0x00, 0x00, 0x00, 0x00,
        0xff, 0xff, 0x00, 0x00, 0x00, 0x00, 0x00, 0x00, 0x00, 0x00, 0xff, 0x00, 0x00, 0x00, 0x00, 0x00,
        0x00, 0x00, 0x00, 0x00, 0x45, 0xff, 0x00, 0x00, 0xff, 0xff, 0xff, 0x00, 0x00, 0x00, 0x00, 0x00,
        0x00, 0x00, 0x00, 0x00, 0x00, 0x00, 0x00, 0x00, 0x00, 0x00, 0x00, 0x00, 0x00, 0x00, 0x00, 0x00,
        0x00, 0xff, 0x00, 0xff, 0x00, 0x00, 0x00, 0xff, 0x00, 0x00, 0x00, 0x00, 0xff, 0x00, 0x00, 0x00,
        0x00, 0x00, 0x00, 0x00, 0x00, 0x00, 0x04, 0x01, 0xff, 0xff, 0xff, 0x01, 0x00, 0x05, 0x00, 0x00,
        0x00, 0x00, 0x00, 0x00, 0x00, 0x00, 0x00, 0x00, 0x00, 0x00, 0x00, 0x00, 0x00, 0x00, 0x00, 0x00,
        0xc0, 0x06, 0x00, 0x10, 0xa2, 0x04, 0x00, 0x10, 0xb4, 0x04, 0x00, 0x10, 0x0d, 0x01, 0x00, 0x10,
        0x02, 0x00, 0x00, 0x00, 0x53, 0x3a, 0x00, 0x00, 0x00, 0x00, 0xff, 0x00, 0x54, 0x09, 0x00, 0x10,
        0xc0, 0x06, 0x00, 0x10, 0x00, 0x00, 0x00, 0x00, 0x3c, 0x06, 0x00, 0x10, 0x4f, 0x4b, 0x00, 0x00,
        0x00, 0x00, 0x00, 0x00, 0x00, 0x00, 0x00, 0x00, 0x00, 0x00, 0x00, 0x00, 0x00, 0x00, 0x00, 0x00,
        0x00, 0x00, 0x00, 0x00, 0x00, 0x00, 0x00, 0x00, 0x00, 0x00, 0x00, 0x00, 0x00, 0x00, 0x00, 0x00,
        0x00, 0x00, 0x00, 0x00, 0x00, 0x00, 0x00, 0x00, 0x00, 0x00, 0x00, 0x00, 0x00, 0x00, 0x00, 0x00,
        0x00, 0x00, 0x00, 0x00, 0x00, 0x00, 0x00, 0x00,
    ]
}

/// A 264-byte image whose byte at index `i` is `i` truncated to a byte.
fn patterned_image() -> [u8; 264] {
    let mut b: [u8; 264] = [0; 264];
    let mut i: usize = 0;
    while i < 264 {
        b[i] = i as u8;
        i += 1;
    }
    b
}

#[test]
fn new_and_empty_are_zeroed() {
    let r = Report::new();
    assert!(r.as_bytes().iter().all(|&b| b == 0));
    let e = Report::empty();
    assert_eq!(r.as_bytes()[..], e.as_bytes()[..]);
}

#[test]
fn request_sets_header_only() {
    let r = Report::request(Mode::KeyRead, Layer::Three);
    let b = r.as_bytes();
    assert_eq!(b[0], 0x07);
    assert_eq!(b[1], 0x82);
    assert_eq!(b[2], 0x03);
    assert!(b[3..].iter().all(|&x| x == 0));
}

#[test]
fn finalize_request_sets_marker_and_mode() {
    let r = Report::finalize_request();
    let b = r.as_bytes();
    assert_eq!(b[0], 0x07);
    assert_eq!(b[1], 0x06);
    assert!(b[2..].iter().all(|&x| x == 0));
}

#[test]
fn reset_restores_factory_image() {
    let mut r = Report::new();
    r.reset();
    assert_eq!(r.as_bytes()[..], factory_default_image()[..]);
}

#[test]
fn factory_image_decode_reencode_is_identity() {
    let mut r = Report::new();
    r.reset();
    let data = ReportData::decode(&r).expect("factory image must decode");
    assert_eq!(data.mode, Mode::KeyWrite);
    assert_eq!(data.active_layer, Layer::One);
    assert_eq!(data.key_one, KeyCode::Mute);
    assert_eq!(data.key_eight, KeyCode::VolumeDown);
    assert_eq!(data.led_mode, LEDMode::Static);
    assert_eq!(data.brightness, Brightness::Max);
    assert_eq!(data.flow, Flow::LeftToRight);
    assert_eq!((data.led_red, data.led_green, data.led_blue), (0xff, 0xff, 0xff));
    data.encode_into(&mut r);
    assert_eq!(r.as_bytes()[..], factory_default_image()[..]);
}

#[test]
fn clear_end_zeroes_trailing_and_preserves_head() {
    let mut r = Report::from_bytes(factory_default_image());
    r.clear_end();
    r.set_mode(Mode::KeyWrite);
    let b = r.as_bytes();
    let expected = factory_default_image();
    for i in 0..208 {
        if i == 1 {
            assert_eq!(b[i], 0x02);
        } else {
            assert_eq!(b[i], expected[i], "byte {} must be untouched", i);
        }
    }
    for i in 208..264 {
        assert_eq!(b[i], 0, "byte {} must be zeroed", i);
    }
}

#[test]
fn encode_decode_round_trip_keeps_every_field() {
    let data = ReportData {
        zeroth_byte: 0x07,
        mode: Mode::KeyRead,
        active_layer: Layer::Five,
        key_one: KeyCode::KPAsterisk,
        key_five: KeyCode::KPSlash,
        macro_key_three: 0x21,
        macro_key_seven: 0x42,
        key_two: KeyCode::A,
        key_six: KeyCode::MediaNext,
        key_three: KeyCode::LayerCycle,
        key_seven: KeyCode::Leftmeta,
        key_four: KeyCode::MouseForward,
        key_eight: KeyCode::Disable,
        key_one_red: 1,
        key_two_red: 2,
        key_four_red: 3,
        key_five_red: 4,
        key_three_red: 5,
        key_eight_red: 6,
        key_six_red: 7,
        key_seven_red: 8,
        key_one_green: 9,
        key_two_green: 10,
        key_four_green: 11,
        key_five_green: 12,
        key_three_green: 13,
        key_eight_green: 14,
        key_six_green: 15,
        key_seven_green: 16,
        key_one_blue: 17,
        key_two_blue: 18,
        key_four_blue: 19,
        key_five_blue: 20,
        key_three_blue: 21,
        key_eight_blue: 22,
        key_six_blue: 23,
        key_seven_blue: 24,
        led_mode: LEDMode::Custom,
        brightness: Brightness::Low,
        flow: Flow::Spinning,
        led_red: 0xAA,
        led_green: 0xBB,
        led_blue: 0xCC,
    };
    let mut r = Report::from_bytes(patterned_image());
    data.encode_into(&mut r);
    let back = ReportData::decode(&r).expect("encoded image must decode");
    assert_eq!(back, data);
}

#[test]
fn encode_into_preserves_reserved_bytes() {
    let mut r = Report::from_bytes(patterned_image());
    let data = ReportData::decode(&Report::from_bytes(factory_default_image())).unwrap();
    data.encode_into(&mut r);
    let b = r.as_bytes();
    // A few reserved offsets between the named fields.
    for &i in &[3usize, 4, 5, 6, 7, 0x0C, 0x19, 0x39, 0x3D, 0x3E, 0x4B, 0x7D, 0x84, 0x8B, 0xD0, 263] {
        assert_eq!(b[i], i as u8, "reserved byte {} must keep its value", i);
    }
}

#[test]
fn decode_rejects_unknown_mode_byte() {
    let mut image = factory_default_image();
    image[1] = 0x7F;
    assert!(ReportData::decode(&Report::from_bytes(image)).is_none());
    let mut image2 = factory_default_image();
    image2[2] = 9;
    assert!(ReportData::decode(&Report::from_bytes(image2)).is_none());
    let mut image3 = factory_default_image();
    image3[0x08] = 0xB3;
    assert!(ReportData::decode(&Report::from_bytes(image3)).is_none());
}

#[test]
fn mode_and_layer_accessors() {
    let mut r = Report::request(Mode::KeyRead, Layer::One);
    assert_eq!(r.first_byte(), 0x07);
    assert_eq!(r.mode(), Some(Mode::KeyRead));
    assert_eq!(r.active_layer(), Some(Layer::One));
    r.set_mode(Mode::MacroWrite);
    r.set_active_layer(Layer::Four);
    assert_eq!(r.mode(), Some(Mode::MacroWrite));
    assert_eq!(r.active_layer(), Some(Layer::Four));
    let zero = Report::new();
    assert_eq!(zero.mode(), None);
    assert_eq!(zero.active_layer(), None);
}

#[test]
fn clear_keeps_only_key_read_header() {
    let r = Report::from_bytes(factory_default_image());
    let cleared = r.clear(Some(Layer::Two));
    let b = cleared.as_bytes();
    assert_eq!(b[0], 0x07);
    assert_eq!(b[1], 0x82);
    assert_eq!(b[2], 0x02);
    assert!(b[3..].iter().all(|&x| x == 0));
    let r2 = Report::from_bytes(factory_default_image());
    assert_eq!(r2.clear(None).as_bytes()[2], 0x01);
}

#[test]
fn mode_values_are_the_documented_opcodes() {
    assert_eq!(Mode::LayerWrite.value(), 0x01);
    assert_eq!(Mode::KeyWrite.value(), 0x02);
    assert_eq!(Mode::MacroWrite.value(), 0x05);
    assert_eq!(Mode::Finalize.value(), 0x06);
    assert_eq!(Mode::KeyRead.value(), 0x82);
    assert_eq!(Mode::from_u8(0x82), Some(Mode::KeyRead));
    assert_eq!(Mode::from_u8(0x03), None);
    assert_eq!(Layer::from_u8(5), Some(Layer::Five));
    assert_eq!(Layer::from_u8(0), None);
    assert_eq!(Layer::Five.value(), 5);
}
