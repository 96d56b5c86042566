use vstd::prelude::*;

use crate::keycode::KeyCode;
use crate::mode::Mode;
use crate::report::Report;

verus! {

/// Logical slot identifier for the eight physical programmable keys.
///
/// Each key is indexed into three different on-wire tables — the
/// key-code field offset, the color-offset triple and the macro-table
/// index — and those three mappings are independent lookup tables, not
/// arithmetic derivations from the key's ordinal.
#[derive(Clone, Copy, Debug, PartialEq, Eq, Structural)]
pub enum Key {
    One,
    Two,
    Three,
    Four,
    Five,
    Six,
    Seven,
    Eight,
}

/// One staged slot assignment: which key, and which key code it is to
/// carry.
#[derive(Clone, Copy, Debug, PartialEq, Eq, Structural)]
pub struct KeyControl {
    pub key: Key,
    pub key_code: KeyCode,
}

/// The staged mapping from every key to its pending key code.
///
/// All eight slots are always populated; construction supplies the
/// factory defaults (the media keys).  A slot staged as
/// [`KeyCode::Disable`] leaves that key's device-side mapping untouched
/// when the controls are merged into a report.
#[derive(Clone, Copy, Debug, PartialEq, Eq)]
pub struct KeyControls {
    pub keys: [KeyControl; 8],
}

impl Key {
    /// Position of this key among the eight slots, in declaration
    /// order.
    pub open spec fn spec_ordinal(self) -> int {
        match self {
            Key::One => 0,
            Key::Two => 1,
            Key::Three => 2,
            Key::Four => 3,
            Key::Five => 4,
            Key::Six => 5,
            Key::Seven => 6,
            Key::Eight => 7,
        }
    }

    pub fn ordinal(self) -> (i: usize)
        ensures
            i == self.spec_ordinal(),
    {
        match self {
            Key::One => 0,
            Key::Two => 1,
            Key::Three => 2,
            Key::Four => 3,
            Key::Five => 4,
            Key::Six => 5,
            Key::Seven => 6,
            Key::Eight => 7,
        }
    }

    /// The key at the given ordinal, if the ordinal names one.
    pub open spec fn spec_from_u8(v: u8) -> Option<Key> {
        if v == 0 {
            Some(Key::One)
        } else if v == 1 {
            Some(Key::Two)
        } else if v == 2 {
            Some(Key::Three)
        } else if v == 3 {
            Some(Key::Four)
        } else if v == 4 {
            Some(Key::Five)
        } else if v == 5 {
            Some(Key::Six)
        } else if v == 6 {
            Some(Key::Seven)
        } else if v == 7 {
            Some(Key::Eight)
        } else {
            None
        }
    }

    #[verifier::when_used_as_spec(spec_from_u8)]
    pub fn from_u8(v: u8) -> (k: Option<Key>)
        ensures
            k == Key::spec_from_u8(v),
    {
        if v == 0 {
            Some(Key::One)
        } else if v == 1 {
            Some(Key::Two)
        } else if v == 2 {
            Some(Key::Three)
        } else if v == 3 {
            Some(Key::Four)
        } else if v == 4 {
            Some(Key::Five)
        } else if v == 5 {
            Some(Key::Six)
        } else if v == 6 {
            Some(Key::Seven)
        } else if v == 7 {
            Some(Key::Eight)
        } else {
            None
        }
    }

    /// Report offset of this key's key-code field.
    pub open spec fn spec_index(self) -> int {
        match self {
            Key::One => 0x08,
            Key::Five => 0x09,
            Key::Two => 0x0D,
            Key::Six => 0x0E,
            Key::Three => 0x12,
            Key::Seven => 0x13,
            Key::Four => 0x17,
            Key::Eight => 0x18,
        }
    }

    pub fn to_index(&self) -> (i: usize)
        ensures
            i == self.spec_index(),
    {
        match self {
            Key::One => 0x08,
            Key::Five => 0x09,
            Key::Two => 0x0D,
            Key::Six => 0x0E,
            Key::Three => 0x12,
            Key::Seven => 0x13,
            Key::Four => 0x17,
            Key::Eight => 0x18,
        }
    }

    /// The key whose key-code field sits at the given report offset, if
    /// any does.
    pub open spec fn spec_from_index(index: int) -> Option<Key> {
        if index == 0x08 {
            Some(Key::One)
        } else if index == 0x09 {
            Some(Key::Five)
        } else if index == 0x0D {
            Some(Key::Two)
        } else if index == 0x0E {
            Some(Key::Six)
        } else if index == 0x12 {
            Some(Key::Three)
        } else if index == 0x13 {
            Some(Key::Seven)
        } else if index == 0x17 {
            Some(Key::Four)
        } else if index == 0x18 {
            Some(Key::Eight)
        } else {
            None
        }
    }

    pub fn from_index(index: usize) -> (k: Option<Key>)
        ensures
            k == Key::spec_from_index(index as int),
    {
        if index == 0x08 {
            Some(Key::One)
        } else if index == 0x09 {
            Some(Key::Five)
        } else if index == 0x0D {
            Some(Key::Two)
        } else if index == 0x0E {
            Some(Key::Six)
        } else if index == 0x12 {
            Some(Key::Three)
        } else if index == 0x13 {
            Some(Key::Seven)
        } else if index == 0x17 {
            Some(Key::Four)
        } else if index == 0x18 {
            Some(Key::Eight)
        } else {
            None
        }
    }

    /// Report offsets of this key's red, green and blue bytes.
    ///
    /// The colors of different keys are interleaved across three whole
    /// byte bands (all reds, then all greens, then all blues), mirroring
    /// the device's own memory layout; the three offsets of one key are
    /// deliberately not contiguous.
    pub open spec fn spec_color_indices(self) -> (int, int, int) {
        match self {
            Key::One => (0x3A, 0x53, 0x6C),
            Key::Two => (0x3B, 0x54, 0x6D),
            Key::Three => (0x40, 0x59, 0x72),
            Key::Four => (0x3C, 0x55, 0x6E),
            Key::Five => (0x3F, 0x58, 0x71),
            Key::Six => (0x45, 0x5E, 0x77),
            Key::Seven => (0x4A, 0x63, 0x7C),
            Key::Eight => (0x41, 0x5A, 0x73),
        }
    }

    pub fn to_color_indices(&self) -> (t: (usize, usize, usize))
        ensures
            t.0 == self.spec_color_indices().0,
            t.1 == self.spec_color_indices().1,
            t.2 == self.spec_color_indices().2,
    {
        match self {
            Key::One => (0x3A, 0x53, 0x6C),
            Key::Two => (0x3B, 0x54, 0x6D),
            Key::Three => (0x40, 0x59, 0x72),
            Key::Four => (0x3C, 0x55, 0x6E),
            Key::Five => (0x3F, 0x58, 0x71),
            Key::Six => (0x45, 0x5E, 0x77),
            Key::Seven => (0x4A, 0x63, 0x7C),
            Key::Eight => (0x41, 0x5A, 0x73),
        }
    }

    /// Index of this key in the device's macro table.
    pub open spec fn spec_macro_index(self) -> int {
        match self {
            Key::One => 0x00,
            Key::Five => 0x01,
            Key::Two => 0x05,
            Key::Six => 0x06,
            Key::Three => 0x0A,
            Key::Seven => 0x0B,
            Key::Four => 0x0F,
            Key::Eight => 0x10,
        }
    }

    pub fn to_macro_index(&self) -> (i: usize)
        ensures
            i == self.spec_macro_index(),
    {
        match self {
            Key::One => 0x00,
            Key::Five => 0x01,
            Key::Two => 0x05,
            Key::Six => 0x06,
            Key::Three => 0x0A,
            Key::Seven => 0x0B,
            Key::Four => 0x0F,
            Key::Eight => 0x10,
        }
    }
}

/// The three per-key tables alias nothing: two distinct keys never
/// share a key-code offset, a macro-table index, or any component of
/// their color-offset triples, and the key-code table inverts cleanly.
pub proof fn lemma_key_tables_injective(k1: Key, k2: Key)
    ensures
        k1 != k2 ==> k1.spec_index() != k2.spec_index(),
        k1 != k2 ==> k1.spec_macro_index() != k2.spec_macro_index(),
        k1 != k2 ==> k1.spec_color_indices().0 != k2.spec_color_indices().0,
        k1 != k2 ==> k1.spec_color_indices().1 != k2.spec_color_indices().1,
        k1 != k2 ==> k1.spec_color_indices().2 != k2.spec_color_indices().2,
        Key::spec_from_index(k1.spec_index()) == Some(k1),
{
}

/// The factory-default slot assignments: the eight media keys.
pub open spec fn spec_default_key_controls() -> Seq<KeyControl> {
    seq![
        KeyControl { key: Key::One, key_code: KeyCode::Mute },
        KeyControl { key: Key::Two, key_code: KeyCode::PlayPause },
        KeyControl { key: Key::Three, key_code: KeyCode::MediaStop },
        KeyControl { key: Key::Four, key_code: KeyCode::VolumeUp },
        KeyControl { key: Key::Five, key_code: KeyCode::MediaLaunch },
        KeyControl { key: Key::Six, key_code: KeyCode::MediaPrevious },
        KeyControl { key: Key::Seven, key_code: KeyCode::MediaNext },
        KeyControl { key: Key::Eight, key_code: KeyCode::VolumeDown },
    ]
}

impl KeyControls {
    /// Staged controls with every slot at its factory default.
    pub fn new() -> (c: KeyControls)
        ensures
            c.keys@ == spec_default_key_controls(),
    {
        let controls = KeyControls {
            keys: [
                KeyControl { key: Key::One, key_code: KeyCode::Mute },
                KeyControl { key: Key::Two, key_code: KeyCode::PlayPause },
                KeyControl { key: Key::Three, key_code: KeyCode::MediaStop },
                KeyControl { key: Key::Four, key_code: KeyCode::VolumeUp },
                KeyControl { key: Key::Five, key_code: KeyCode::MediaLaunch },
                KeyControl { key: Key::Six, key_code: KeyCode::MediaPrevious },
                KeyControl { key: Key::Seven, key_code: KeyCode::MediaNext },
                KeyControl { key: Key::Eight, key_code: KeyCode::VolumeDown },
            ],
        };
        proof {
            assert(controls.keys@ =~= spec_default_key_controls());
        }
        controls
    }

    /// Stages a new key code for one slot; the other slots keep their
    /// staged values.
    pub fn set_key(&mut self, key: Key, key_code: KeyCode)
        ensures
            final(self).keys@ == old(self).keys@.update(
                key.spec_ordinal(),
                (KeyControl { key: old(self).keys@[key.spec_ordinal()].key, key_code }),
            ),
    {
        let i = key.ordinal();
        let slot = self.keys[i];
        self.keys[i] = KeyControl { key: slot.key, key_code };
    }

    /// Merges the staged slots into a report: every slot not staged as
    /// [`KeyCode::Disable`] overwrites its key's key-code field, in slot
    /// order; `Disable` slots leave the report byte as the device
    /// reported it.
    pub fn apply_to_report(&self, report: &mut Report)
        ensures
            final(report)@ == spec_apply_key_controls(old(report)@, self.keys@),
    {
        let mut i: usize = 0;
        while i < 8
            invariant
                i <= 8,
                report@ == spec_apply_key_controls_prefix(old(report)@, self.keys@, i as int),
            decreases 8 - i,
        {
            let slot = self.keys[i];
            if slot.key_code != KeyCode::Disable {
                report.set_key(slot.key, slot.key_code);
            }
            i = i + 1;
        }
    }
}

/// One staged slot merged into a report image: no change for a
/// `Disable` slot, otherwise the slot's key code written at its key's
/// report offset.
pub open spec fn spec_apply_key_control(s: Seq<u8>, slot: KeyControl) -> Seq<u8> {
    if slot.key_code == KeyCode::Disable {
        s
    } else {
        s.update(slot.key.spec_index(), slot.key_code.spec_value())
    }
}

/// The first `n` staged slots merged into a report image, in order.
pub open spec fn spec_apply_key_controls_prefix(
    s: Seq<u8>,
    slots: Seq<KeyControl>,
    n: int,
) -> Seq<u8>
    decreases n,
{
    if n <= 0 {
        s
    } else {
        spec_apply_key_control(spec_apply_key_controls_prefix(s, slots, n - 1), slots[n - 1])
    }
}

/// All staged slots merged into a report image, in slot order.
pub open spec fn spec_apply_key_controls(s: Seq<u8>, slots: Seq<KeyControl>) -> Seq<u8> {
    spec_apply_key_controls_prefix(s, slots, slots.len() as int)
}

impl Report {
    /// Writes one key's key-code field: a single byte at that key's
    /// fixed report offset.
    pub fn set_key(&mut self, key: Key, key_code: KeyCode)
        ensures
            final(self)@ == old(self)@.update(key.spec_index(), key_code.spec_value()),
    {
        self.set_byte(key.to_index(), key_code.value());
    }

    /// Writes one key's color: three bytes at the key's fixed red,
    /// green and blue offsets, which lie in three separate byte bands.
    pub fn set_key_color(&mut self, key: Key, color: (u8, u8, u8))
        ensures
            final(self)@ == old(self)@.update(key.spec_color_indices().0, color.0).update(
                key.spec_color_indices().1,
                color.1,
            ).update(key.spec_color_indices().2, color.2),
    {
        let (r, g, b) = key.to_color_indices();
        self.set_byte(r, color.0);
        self.set_byte(g, color.1);
        self.set_byte(b, color.2);
    }
}

/// The write-phase report of a key update: the state the device just
/// reported, re-tagged with the `KeyWrite` opcode, its trailing bytes
/// zeroed, and the staged key controls merged in.
pub fn key_write_report(current: &Report, controls: &KeyControls) -> (r: Report)
    ensures
        r@ == spec_apply_key_controls(
            Report::spec_clear_end(Report::spec_set_mode(current@, Mode::KeyWrite)),
            controls.keys@,
        ),
{
    let mut r = *current;
    r.set_mode(Mode::KeyWrite);
    r.clear_end();
    controls.apply_to_report(&mut r);
    r
}

} // verus!
