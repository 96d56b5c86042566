//! Tests of the macro encoder: event byte packing, the capacity cap,
//! and the distribution of events over the three packets.

use falcon8::{
    macro_write_report, Error, KeyCode, KeyPress, Macro, MacroData, Mode, Repetition, Report,
};

fn event(key_press: KeyPress, delay: u16, key_code: KeyCode) -> MacroData {
    MacroData {
        key_press,
        delay,
        key_code,
    }
}

fn macro_with_events(n: usize) -> Macro {
    let mut m = Macro {
        repetition: Repetition::UntilNextKeyPressed,
        data: Vec::new(),
    };
    let mut i: usize = 0;
    while i < n {
        m.add_macro_data(event(KeyPress::Down, 1, KeyCode::A)).unwrap();
        i += 1;
    }
    m
}

#[test]
fn repetition_bytes_are_big_endian() {
    assert_eq!(Repetition::UntilNextKeyPressed.as_bytes(), [0x00, 0x00]);
    assert_eq!(Repetition::WhilePressed.as_bytes(), [0xFF, 0xFF]);
    assert_eq!(Repetition::UntilNextKeyPressed.value(), 0x0000);
    assert_eq!(Repetition::WhilePressed.value(), 0xFFFF);
    assert_eq!(KeyPress::Up.value(), 0x0000);
    assert_eq!(KeyPress::Down.value(), 0x8000);
}

#[test]
fn event_bytes_carry_press_bit_delay_and_code() {
    let down = event(KeyPress::Down, 0x1234, KeyCode::KP1);
    assert_eq!(down.as_bytes(), [0x92, 0x34, 0x59]);
    let up = event(KeyPress::Up, 0x1234, KeyCode::KP1);
    assert_eq!(up.as_bytes(), [0x12, 0x34, 0x59]);
    let max_delay = event(KeyPress::Down, 0x7FFF, KeyCode::A);
    assert_eq!(max_delay.as_bytes(), [0xFF, 0xFF, 0x04]);
    let zero = event(KeyPress::Up, 0, KeyCode::Disable);
    assert_eq!(zero.as_bytes(), [0x00, 0x00, 0x00]);
}

#[test]
fn three_event_macro_fills_packet_one_only() {
    let mut m = Macro {
        repetition: Repetition::WhilePressed,
        data: Vec::new(),
    };
    m.add_macro_data(event(KeyPress::Down, 1, KeyCode::A)).unwrap();
    m.add_macro_data(event(KeyPress::Up, 2, KeyCode::B)).unwrap();
    m.add_macro_data(event(KeyPress::Down, 3, KeyCode::C)).unwrap();
    let b = m.to_bytes();
    assert_eq!(b[0].len(), 11);
    assert_eq!(&b[0][0..2], &[0xFF, 0xFF]);
    assert_eq!(&b[0][2..5], &[0x80, 1, 0x04]);
    assert_eq!(&b[0][5..8], &[0x00, 2, 0x05]);
    assert_eq!(&b[0][8..11], &[0x80, 3, 0x06]);
    assert!(b[1].is_empty());
    assert!(b[2].is_empty());
}

#[test]
fn capacity_stops_at_240_events() {
    let mut m = macro_with_events(239);
    assert!(m.add_macro_data(event(KeyPress::Up, 5, KeyCode::B)).is_ok());
    assert_eq!(m.data.len(), 240);
    let overflow = m.add_macro_data(event(KeyPress::Up, 6, KeyCode::C));
    assert_eq!(overflow.unwrap_err(), Error::InvalidParam);
    assert_eq!(m.data.len(), 240, "a failed insertion must change nothing");
    assert_eq!(m.data[239].key_code, KeyCode::B);
}

#[test]
fn no_event_is_split_across_packets() {
    // 84 whole events fill packet 1 to its last usable byte.
    let m84 = macro_with_events(84);
    let b = m84.to_bytes();
    assert_eq!(b[0].len(), 2 + 3 * 84);
    assert!(b[1].is_empty());
    assert!(b[2].is_empty());

    // The 85th event moves whole to packet 2; packet 1 stays at 254.
    let m85 = macro_with_events(85);
    let b = m85.to_bytes();
    assert_eq!(b[0].len(), 254);
    assert_eq!(b[1].len(), 3);
    assert_eq!(&b[1][..], &[0x80, 1, 0x04]);
    assert!(b[2].is_empty());

    // 169 events fill packet 2 to 255 bytes; the 170th opens packet 3.
    let m170 = macro_with_events(170);
    let b = m170.to_bytes();
    assert_eq!(b[0].len(), 254);
    assert_eq!(b[1].len(), 255);
    assert_eq!(b[2].len(), 3);
}

#[test]
fn full_macro_distribution() {
    let m = macro_with_events(240);
    let b = m.to_bytes();
    assert_eq!(b[0].len(), 254);
    assert_eq!(b[1].len(), 255);
    assert_eq!(b[2].len(), 3 * (240 - 169));
    assert!(b[0].len() <= 256 && b[1].len() <= 256 && b[2].len() <= 256);
    // Every packet is a whole number of events after the header.
    assert_eq!((b[0].len() - 2) % 3, 0);
    assert_eq!(b[1].len() % 3, 0);
    assert_eq!(b[2].len() % 3, 0);
}

#[test]
fn empty_macro_encodes_header_only() {
    let m = Macro {
        repetition: Repetition::WhilePressed,
        data: Vec::new(),
    };
    let b = m.to_bytes();
    assert_eq!(&b[0][..], &[0xFF, 0xFF]);
    assert!(b[1].is_empty());
    assert!(b[2].is_empty());
}

#[test]
fn macro_write_report_retags_and_clears() {
    let mut image: [u8; 264] = [0; 264];
    image[0] = 0x07;
    image[1] = 0x82;
    image[2] = 0x03;
    image[0x40] = 0xAB;
    image[220] = 0xCD;
    let current = Report::from_bytes(image);
    let written = macro_write_report(&current);
    let b = written.as_bytes();
    assert_eq!(b[0], 0x07);
    assert_eq!(b[1], Mode::MacroWrite.value());
    assert_eq!(b[2], 0x03);
    assert_eq!(b[0x40], 0xAB, "the key and color region is preserved");
    assert_eq!(b[220], 0, "trailing state is cleared");
}
