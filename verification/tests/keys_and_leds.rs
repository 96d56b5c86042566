//! Tests of the key tables, the staged key and LED controls, and the
//! write-phase reports they produce.

use falcon8::{
    key_write_report, layer_write_report, led_write_report, Brightness, Error, Flow, Key,
    KeyCode, KeyControls, LEDControls, LEDMode, Layer, Mode, Report,
};

fn all_keys() -> [Key; 8] {
    [
        Key::One,
        Key::Two,
        Key::Three,
        Key::Four,
        Key::Five,
        Key::Six,
        Key::Seven,
        Key::Eight,
    ]
}

/// A 264-byte image whose byte at index `i` is `i` truncated to a byte.
fn patterned_image() -> [u8; 264] {
    let mut b: [u8; 264] = [0; 264];
    let mut i: usize = 0;
    while i < 264 {
        b[i] = i as u8;
        i += 1;
    }
    b
}

#[test]
fn key_index_table() {
    assert_eq!(Key::One.to_index(), 0x08);
    assert_eq!(Key::Five.to_index(), 0x09);
    assert_eq!(Key::Two.to_index(), 0x0D);
    assert_eq!(Key::Six.to_index(), 0x0E);
    assert_eq!(Key::Three.to_index(), 0x12);
    assert_eq!(Key::Seven.to_index(), 0x13);
    assert_eq!(Key::Four.to_index(), 0x17);
    assert_eq!(Key::Eight.to_index(), 0x18);
}

#[test]
fn key_index_table_inverts_and_rejects() {
    for key in all_keys() {
        assert_eq!(Key::from_index(key.to_index()), Some(key));
    }
    assert_eq!(Key::from_index(0x0A), None);
    assert_eq!(Key::from_index(0), None);
}

#[test]
fn key_tables_do_not_alias() {
    let keys = all_keys();
    for i in 0..8 {
        for j in 0..8 {
            if i != j {
                assert_ne!(keys[i].to_index(), keys[j].to_index());
                assert_ne!(keys[i].to_macro_index(), keys[j].to_macro_index());
                let a = keys[i].to_color_indices();
                let b = keys[j].to_color_indices();
                assert_ne!(a.0, b.0);
                assert_ne!(a.1, b.1);
                assert_ne!(a.2, b.2);
            }
        }
    }
}

#[test]
fn color_index_table() {
    assert_eq!(Key::One.to_color_indices(), (0x3A, 0x53, 0x6C));
    assert_eq!(Key::Two.to_color_indices(), (0x3B, 0x54, 0x6D));
    assert_eq!(Key::Three.to_color_indices(), (0x40, 0x59, 0x72));
    assert_eq!(Key::Four.to_color_indices(), (0x3C, 0x55, 0x6E));
    assert_eq!(Key::Five.to_color_indices(), (0x3F, 0x58, 0x71));
    assert_eq!(Key::Six.to_color_indices(), (0x45, 0x5E, 0x77));
    assert_eq!(Key::Seven.to_color_indices(), (0x4A, 0x63, 0x7C));
    assert_eq!(Key::Eight.to_color_indices(), (0x41, 0x5A, 0x73));
}

#[test]
fn macro_index_table() {
    assert_eq!(Key::One.to_macro_index(), 0x00);
    assert_eq!(Key::Five.to_macro_index(), 0x01);
    assert_eq!(Key::Two.to_macro_index(), 0x05);
    assert_eq!(Key::Six.to_macro_index(), 0x06);
    assert_eq!(Key::Three.to_macro_index(), 0x0A);
    assert_eq!(Key::Seven.to_macro_index(), 0x0B);
    assert_eq!(Key::Four.to_macro_index(), 0x0F);
    assert_eq!(Key::Eight.to_macro_index(), 0x10);
}

#[test]
fn key_code_values() {
    assert_eq!(KeyCode::Disable.value(), 0x00);
    assert_eq!(KeyCode::A.value(), 0x04);
    assert_eq!(KeyCode::KPSlash.value(), 0x54);
    assert_eq!(KeyCode::KPAsterisk.value(), 0x55);
    assert_eq!(KeyCode::MediaLaunch.value(), 0xA4);
    assert_eq!(KeyCode::Mute.value(), 0xA9);
    assert_eq!(KeyCode::VolumeUp.value(), 0xAB);
    assert_eq!(KeyCode::Layer1.value(), 0xB4);
    assert_eq!(KeyCode::LayerCycle.value(), 0xB9);
    assert_eq!(KeyCode::LEDBrightnessCycle.value(), 0xBB);
    assert_eq!(KeyCode::MouseLeftClick.value(), 0xBE);
    assert_eq!(KeyCode::MouseBackward.value(), 0xC3);
    assert_eq!(KeyCode::DoNotUseLaunchProgram.value(), 0xF7);
    assert_eq!(KeyCode::LockUnlockWholeS.value(), 0xFA);
    assert_eq!(KeyCode::Leftmeta.value(), 0xFE);
    assert_eq!(KeyCode::from_u8(0xA9), Some(KeyCode::Mute));
    assert_eq!(KeyCode::from_u8(0xAC), None);
    assert_eq!(KeyCode::from_u8(0xFF), None);
}

#[test]
fn key_controls_start_with_media_defaults() {
    let controls = KeyControls::new();
    let expected = [
        (Key::One, KeyCode::Mute),
        (Key::Two, KeyCode::PlayPause),
        (Key::Three, KeyCode::MediaStop),
        (Key::Four, KeyCode::VolumeUp),
        (Key::Five, KeyCode::MediaLaunch),
        (Key::Six, KeyCode::MediaPrevious),
        (Key::Seven, KeyCode::MediaNext),
        (Key::Eight, KeyCode::VolumeDown),
    ];
    for (slot, (key, code)) in controls.keys.iter().zip(expected.iter()) {
        assert_eq!(slot.key, *key);
        assert_eq!(slot.key_code, *code);
    }
}

#[test]
fn key_controls_set_key_changes_one_slot() {
    let mut controls = KeyControls::new();
    controls.set_key(Key::Seven, KeyCode::MediaPrevious);
    assert_eq!(controls.keys[6].key, Key::Seven);
    assert_eq!(controls.keys[6].key_code, KeyCode::MediaPrevious);
    assert_eq!(controls.keys[0].key_code, KeyCode::Mute);
    assert_eq!(controls.keys[7].key_code, KeyCode::VolumeDown);
}

#[test]
fn report_set_key_writes_single_byte() {
    let mut r = Report::new();
    r.set_key(Key::Six, KeyCode::MediaNext);
    let b = r.as_bytes();
    assert_eq!(b[0x0E], 0xA8);
    assert_eq!(b.iter().filter(|&&x| x != 0).count(), 1);
}

#[test]
fn report_set_key_color_writes_three_bands() {
    let mut r = Report::new();
    r.set_key_color(Key::One, (1, 2, 3));
    let b = r.as_bytes();
    assert_eq!(b[0x3A], 1);
    assert_eq!(b[0x53], 2);
    assert_eq!(b[0x6C], 3);
    assert_eq!(b.iter().filter(|&&x| x != 0).count(), 3);
}

#[test]
fn key_write_report_merges_staged_slots() {
    let current = Report::from_bytes(patterned_image());
    let mut controls = KeyControls::new();
    controls.set_key(Key::One, KeyCode::KPAsterisk);
    controls.set_key(Key::Five, KeyCode::Disable);
    let written = key_write_report(&current, &controls);
    let b = written.as_bytes();
    assert_eq!(b[1], 0x02);
    assert_eq!(b[0x08], 0x55, "staged key one must be written");
    assert_eq!(b[0x09], 0x09, "disabled slot must keep the device byte");
    assert_eq!(b[0x0D], 0xA7, "default slots are written too");
    for i in 208..264 {
        assert_eq!(b[i], 0);
    }
    assert_eq!(b[0], 0x00, "bytes outside the written fields are kept");
    assert_eq!(b[0x20], 0x20);
}

#[test]
fn layer_write_report_is_a_single_header() {
    let r = layer_write_report(Layer::Four);
    let b = r.as_bytes();
    assert_eq!(b[0], 0x07);
    assert_eq!(b[1], 0x01);
    assert_eq!(b[2], 0x04);
    assert!(b[3..].iter().all(|&x| x == 0));
}

#[test]
fn led_controls_start_unset() {
    let c = LEDControls::new();
    assert_eq!(c.mode, None);
    assert_eq!(c.brightness, None);
    assert_eq!(c.flow, None);
    assert_eq!(c.color, [0; 3]);
    assert_eq!(c.key_colors, [0; 24]);
}

#[test]
fn global_color_requires_custom_mode() {
    let current = Report::new();

    let mut c = LEDControls::new();
    c.set_color((0, 0, 255));
    assert_eq!(led_write_report(&current, &c).unwrap_err(), Error::InvalidParam);

    c.set_mode(LEDMode::Static);
    assert_eq!(led_write_report(&current, &c).unwrap_err(), Error::InvalidParam);

    c.set_mode(LEDMode::Custom);
    assert!(led_write_report(&current, &c).is_ok());
}

#[test]
fn key_color_requires_custom_mode() {
    let current = Report::new();

    let mut c = LEDControls::new();
    c.set_key_color(Key::Three, (10, 20, 30));
    assert_eq!(led_write_report(&current, &c).unwrap_err(), Error::InvalidParam);

    c.set_mode(LEDMode::Breathing);
    assert_eq!(led_write_report(&current, &c).unwrap_err(), Error::InvalidParam);

    c.set_mode(LEDMode::Custom);
    let written = led_write_report(&current, &c).unwrap();
    let b = written.as_bytes();
    assert_eq!(b[0x40], 10);
    assert_eq!(b[0x59], 20);
    assert_eq!(b[0x72], 30);
}

#[test]
fn led_write_report_applies_set_fields_only() {
    let current = Report::from_bytes(patterned_image());
    let mut c = LEDControls::new();
    c.set_mode(LEDMode::Breathing);
    c.set_brightness(Brightness::Max);
    let written = led_write_report(&current, &c).unwrap();
    let b = written.as_bytes();
    assert_eq!(b[1], 0x02, "write phase re-tags the report");
    assert_eq!(b[0x85], 1, "staged mode is written");
    assert_eq!(b[0x86], 4, "staged brightness is written");
    assert_eq!(b[0x87], 0x87, "unset flow keeps the device byte");
    assert_eq!(b[0x88], 0x88, "unset color keeps the device bytes");
    for i in 208..264 {
        assert_eq!(b[i], 0);
    }
    assert_eq!(b[0x50], 0x50, "unrelated bytes are kept");
}

#[test]
fn led_write_report_applies_flow_and_global_color() {
    let current = Report::new();
    let mut c = LEDControls::new();
    c.set_mode(LEDMode::Custom);
    c.set_flow(Flow::Spinning);
    c.set_color((7, 8, 9));
    let written = led_write_report(&current, &c).unwrap();
    let b = written.as_bytes();
    assert_eq!(b[0x85], 7, "custom mode value");
    assert_eq!(b[0x87], 3, "spinning flow value");
    assert_eq!((b[0x88], b[0x89], b[0x8A]), (7, 8, 9));
}

#[test]
fn disable_key_color_clears_the_chunk() {
    let mut c = LEDControls::new();
    c.set_mode(LEDMode::Custom);
    c.set_key_color(Key::Two, (1, 2, 3));
    c.set_key_color(Key::Four, (4, 5, 6));
    c.disable_key_color(Key::Two);
    assert_eq!(&c.key_colors[3..6], &[0, 0, 0]);
    assert_eq!(&c.key_colors[9..12], &[4, 5, 6]);
    let written = led_write_report(&Report::new(), &c).unwrap();
    let b = written.as_bytes();
    assert_eq!(b[0x3B], 0, "disabled key writes nothing");
    assert_eq!(b[0x3C], 4, "remaining key color is written");
}

#[test]
fn led_values_are_the_documented_codes() {
    assert_eq!(LEDMode::Static.value(), 0);
    assert_eq!(LEDMode::Custom.value(), 7);
    assert_eq!(LEDMode::from_u8(7), Some(LEDMode::Custom));
    assert_eq!(LEDMode::from_u8(8), None);
    assert_eq!(Brightness::Off.value(), 0);
    assert_eq!(Brightness::Max.value(), 4);
    assert_eq!(Brightness::from_u8(5), None);
    assert_eq!(Flow::Constant.value(), 4);
    assert_eq!(Flow::from_u8(2), Some(Flow::TopToBottom));
    assert_eq!(Flow::from_u8(5), None);
}
