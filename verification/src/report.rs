use vstd::prelude::*;

use crate::keycode::KeyCode;
use crate::keycode::lemma_keycode_code_injective;
use crate::keycode::lemma_keycode_decode_value;
use crate::layers::Layer;
use crate::led::Brightness;
use crate::led::Flow;
use crate::led::LEDMode;
use crate::mode::Mode;

verus! {

/// The 264-byte binary message exchanged with the device in both
/// directions.
///
/// Byte 0 is the constant protocol marker `0x07`, byte 1 the [`Mode`]
/// opcode, byte 2 the [`Layer`]; the remaining named fields sit at the
/// fixed offsets listed in [`ReportData`].  All unlisted byte ranges are
/// reserved: they are preserved or zeroed by the operations here, never
/// reinterpreted.
#[derive(Clone, Copy, Debug)]
pub struct Report {
    bytes: [u8; 264],
}

impl View for Report {
    type V = Seq<u8>;

    closed spec fn view(&self) -> Seq<u8> {
        self.bytes@
    }
}

/// The all-zero report image.
pub open spec fn spec_zero_report() -> Seq<u8> {
    Seq::new(264, |i: int| 0u8)
}

impl Report {
    /// A zeroed report image with only the protocol marker, the given
    /// mode and the given layer set.
    pub open spec fn spec_request(mode: Mode, layer: Layer) -> Seq<u8> {
        Seq::new(
            264,
            |i: int|
                if i == 0 {
                    0x07u8
                } else if i == 1 {
                    mode.spec_value()
                } else if i == 2 {
                    layer.spec_value()
                } else {
                    0u8
                },
        )
    }

    /// A zeroed report image with only the protocol marker and the
    /// `Finalize` opcode set; its layer byte stays zero.
    pub open spec fn spec_finalize_request() -> Seq<u8> {
        Seq::new(
            264,
            |i: int|
                if i == 0 {
                    0x07u8
                } else if i == 1 {
                    Mode::Finalize.spec_value()
                } else {
                    0u8
                },
        )
    }

    /// The image with its trailing bytes `[208, 264)` zeroed and
    /// everything below byte 208 kept.
    pub open spec fn spec_clear_end(s: Seq<u8>) -> Seq<u8> {
        Seq::new(264, |i: int| if i < 208 { s[i] } else { 0u8 })
    }

    /// The image with its mode byte replaced.
    pub open spec fn spec_set_mode(s: Seq<u8>, mode: Mode) -> Seq<u8> {
        s.update(1, mode.spec_value())
    }

    /// The image with its layer byte replaced.
    pub open spec fn spec_set_layer(s: Seq<u8>, layer: Layer) -> Seq<u8> {
        s.update(2, layer.spec_value())
    }

    pub fn new() -> (r: Report)
        ensures
            r@ == spec_zero_report(),
    {
        let bytes: [u8; 264] = [0; 264];
        proof {
            assert(bytes@ =~= spec_zero_report());
        }
        Report { bytes }
    }

    pub fn empty() -> (r: Report)
        ensures
            r@ == spec_zero_report(),
    {
        Report::new()
    }

    /// Wraps an already fully laid-out 264-byte image, such as one just
    /// received from the device.
    pub fn from_bytes(bytes: [u8; 264]) -> (r: Report)
        ensures
            r@ == bytes@,
    {
        Report { bytes }
    }

    pub fn as_bytes(&self) -> (r: &[u8; 264])
        ensures
            r@ == self@,
    {
        &self.bytes
    }

    /// The report that opens an operation: zeroed but for the protocol
    /// marker, the operation's mode and the targeted layer.
    pub fn request(mode: Mode, layer: Layer) -> (r: Report)
        ensures
            r@ == Report::spec_request(mode, layer),
    {
        let mut bytes: [u8; 264] = [0; 264];
        bytes[0] = 0x07;
        bytes[1] = mode.value();
        bytes[2] = layer.value();
        proof {
            assert(bytes@ =~= Report::spec_request(mode, layer));
        }
        Report { bytes }
    }

    /// The trailing commit report of a key-table update: only the
    /// protocol marker and the `Finalize` opcode are set.
    pub fn finalize_request() -> (r: Report)
        ensures
            r@ == Report::spec_finalize_request(),
    {
        let mut bytes: [u8; 264] = [0; 264];
        bytes[0] = 0x07;
        bytes[1] = Mode::Finalize.value();
        proof {
            assert(bytes@ =~= Report::spec_finalize_request());
        }
        Report { bytes }
    }

    /// Overwrites one byte of the image.  Kept crate-private: the named
    /// fields are reached through the typed accessors, and only those
    /// accessors and the bulk operations may write.
    pub(crate) fn set_byte(&mut self, index: usize, value: u8)
        requires
            index < 264,
        ensures
            final(self)@ == old(self)@.update(index as int, value),
    {
        self.bytes[index] = value;
    }

    /// Resets the report to the factory-default image: the known-good
    /// baseline the device ships with, used to recover a well-formed
    /// state.
    pub fn reset(&mut self)
        ensures
            final(self)@ == spec_default_report(),
    {
        self.bytes = default_report_bytes();
    }

    /// Consumes the report and returns it zeroed but for the protocol
    /// marker, the `KeyRead` opcode and the given layer (layer one when
    /// none is given).
    pub fn clear(self, layer: Option<Layer>) -> (r: Report)
        ensures
            r@ == Report::spec_request(
                Mode::KeyRead,
                if layer is Some {
                    layer->0
                } else {
                    Layer::One
                },
            ),
    {
        match layer {
            Some(l) => Report::request(Mode::KeyRead, l),
            None => Report::request(Mode::KeyRead, Layer::One),
        }
    }

    /// Zeroes the trailing bytes `[208, 264)` and leaves bytes
    /// `[0, 208)` alone.
    ///
    /// Used between the read and the write phase of an update so that
    /// stale device-reported trailing state is not echoed back.
    pub fn clear_end(&mut self)
        ensures
            final(self)@ == Report::spec_clear_end(old(self)@),
    {
        let mut i: usize = 208;
        while i < 264
            invariant
                208 <= i <= 264,
                self@.len() == 264,
                forall|j: int| 0 <= j < 208 ==> self@[j] == old(self)@[j],
                forall|j: int| 208 <= j < i ==> self@[j] == 0u8,
                forall|j: int| i <= j < 264 ==> self@[j] == old(self)@[j],
            decreases 264 - i,
        {
            self.bytes[i] = 0;
            i = i + 1;
        }
        proof {
            assert(self@ =~= Report::spec_clear_end(old(self)@));
        }
    }

    /// The protocol marker byte.
    pub fn first_byte(&self) -> (b: u8)
        ensures
            b == self@[0],
    {
        self.bytes[0]
    }

    /// The mode encoded in byte 1, if that byte holds a known opcode.
    pub fn mode(&self) -> (m: Option<Mode>)
        ensures
            m == Mode::spec_from_u8(self@[1]),
    {
        Mode::from_u8(self.bytes[1])
    }

    pub fn set_mode(&mut self, mode: Mode)
        ensures
            final(self)@ == Report::spec_set_mode(old(self)@, mode),
    {
        self.bytes[1] = mode.value();
    }

    /// The layer encoded in byte 2, if that byte holds a known layer.
    pub fn active_layer(&self) -> (l: Option<Layer>)
        ensures
            l == Layer::spec_from_u8(self@[2]),
    {
        Layer::from_u8(self.bytes[2])
    }

    pub fn set_active_layer(&mut self, layer: Layer)
        ensures
            final(self)@ == Report::spec_set_layer(old(self)@, layer),
    {
        self.bytes[2] = layer.value();
    }
}

/// Zeroing the trailing bytes and then re-setting the header leaves
/// bytes `[0, 208)` untouched apart from the header bytes themselves,
/// and leaves `[208, 264)` all zero.
pub proof fn lemma_clear_end_then_header(s: Seq<u8>, mode: Mode, layer: Layer)
    requires
        s.len() == 264,
    ensures
        ({
            let t = Report::spec_set_layer(
                Report::spec_set_mode(Report::spec_clear_end(s), mode),
                layer,
            );
            &&& t.len() == 264
            &&& forall|i: int| 0 <= i < 208 && i != 1 && i != 2 ==> t[i] == s[i]
            &&& t[1] == mode.spec_value()
            &&& t[2] == layer.spec_value()
            &&& forall|i: int| 208 <= i < 264 ==> t[i] == 0u8
        }),
{
}

/// The factory-default 264-byte image: the zero image overwritten at
/// each position the factory baseline sets.
pub open spec fn spec_default_report() -> Seq<u8> {
    spec_zero_report()
        .update(0x00, 0x07u8)
        .update(0x01, 0x02u8)
        .update(0x02, 0x01u8)
        .update(0x08, 0xa9u8)
        .update(0x09, 0xa4u8)
        .update(0x0a, 0xbbu8)
        .update(0x0d, 0xa7u8)
        .update(0x0e, 0xa6u8)
        .update(0x0f, 0xbcu8)
        .update(0x12, 0xa5u8)
        .update(0x13, 0xa8u8)
        .update(0x14, 0xb9u8)
        .update(0x17, 0xabu8)
        .update(0x18, 0xaau8)
        .update(0x3a, 0xffu8)
        .update(0x3b, 0xffu8)
        .update(0x40, 0xffu8)
        .update(0x41, 0xffu8)
        .update(0x4a, 0xffu8)
        .update(0x54, 0x45u8)
        .update(0x55, 0xffu8)
        .update(0x58, 0xffu8)
        .update(0x59, 0xffu8)
        .update(0x5a, 0xffu8)
        .update(0x71, 0xffu8)
        .update(0x73, 0xffu8)
        .update(0x77, 0xffu8)
        .update(0x7c, 0xffu8)
        .update(0x86, 0x04u8)
        .update(0x87, 0x01u8)
        .update(0x88, 0xffu8)
        .update(0x89, 0xffu8)
        .update(0x8a, 0xffu8)
        .update(0x8b, 0x01u8)
        .update(0x8d, 0x05u8)
        .update(0xa0, 0xc0u8)
        .update(0xa1, 0x06u8)
        .update(0xa3, 0x10u8)
        .update(0xa4, 0xa2u8)
        .update(0xa5, 0x04u8)
        .update(0xa7, 0x10u8)
        .update(0xa8, 0xb4u8)
        .update(0xa9, 0x04u8)
        .update(0xab, 0x10u8)
        .update(0xac, 0x0du8)
        .update(0xad, 0x01u8)
        .update(0xaf, 0x10u8)
        .update(0xb0, 0x02u8)
        .update(0xb4, 0x53u8)
        .update(0xb5, 0x3au8)
        .update(0xba, 0xffu8)
        .update(0xbc, 0x54u8)
        .update(0xbd, 0x09u8)
        .update(0xbf, 0x10u8)
        .update(0xc0, 0xc0u8)
        .update(0xc1, 0x06u8)
        .update(0xc3, 0x10u8)
        .update(0xc8, 0x3cu8)
        .update(0xc9, 0x06u8)
        .update(0xcb, 0x10u8)
        .update(0xcc, 0x4fu8)
        .update(0xcd, 0x4bu8)
}

/// The factory-default image as executable bytes.
fn default_report_bytes() -> (r: [u8; 264])
    ensures
        r@ == spec_default_report(),
{
    let mut b: [u8; 264] = [0; 264];
    proof {
        assert(b@ =~= spec_zero_report());
    }
    b[0x00] = 0x07;
    b[0x01] = 0x02;
    b[0x02] = 0x01;
    b[0x08] = 0xa9;
    b[0x09] = 0xa4;
    b[0x0a] = 0xbb;
    b[0x0d] = 0xa7;
    b[0x0e] = 0xa6;
    b[0x0f] = 0xbc;
    b[0x12] = 0xa5;
    b[0x13] = 0xa8;
    b[0x14] = 0xb9;
    b[0x17] = 0xab;
    b[0x18] = 0xaa;
    b[0x3a] = 0xff;
    b[0x3b] = 0xff;
    b[0x40] = 0xff;
    b[0x41] = 0xff;
    b[0x4a] = 0xff;
    b[0x54] = 0x45;
    b[0x55] = 0xff;
    b[0x58] = 0xff;
    b[0x59] = 0xff;
    b[0x5a] = 0xff;
    b[0x71] = 0xff;
    b[0x73] = 0xff;
    b[0x77] = 0xff;
    b[0x7c] = 0xff;
    b[0x86] = 0x04;
    b[0x87] = 0x01;
    b[0x88] = 0xff;
    b[0x89] = 0xff;
    b[0x8a] = 0xff;
    b[0x8b] = 0x01;
    b[0x8d] = 0x05;
    b[0xa0] = 0xc0;
    b[0xa1] = 0x06;
    b[0xa3] = 0x10;
    b[0xa4] = 0xa2;
    b[0xa5] = 0x04;
    b[0xa7] = 0x10;
    b[0xa8] = 0xb4;
    b[0xa9] = 0x04;
    b[0xab] = 0x10;
    b[0xac] = 0x0d;
    b[0xad] = 0x01;
    b[0xaf] = 0x10;
    b[0xb0] = 0x02;
    b[0xb4] = 0x53;
    b[0xb5] = 0x3a;
    b[0xba] = 0xff;
    b[0xbc] = 0x54;
    b[0xbd] = 0x09;
    b[0xbf] = 0x10;
    b[0xc0] = 0xc0;
    b[0xc1] = 0x06;
    b[0xc3] = 0x10;
    b[0xc8] = 0x3c;
    b[0xc9] = 0x06;
    b[0xcb] = 0x10;
    b[0xcc] = 0x4f;
    b[0xcd] = 0x4b;
    b
}

/// The named fields of a report, decoded into their own types.
///
/// Each field lives at a fixed byte offset of the 264-byte image (noted
/// beside it); everything between those offsets is reserved and is not
/// represented here.  Decoding reads only the named offsets; encoding
/// writes only the named offsets and leaves every reserved byte of the
/// image as it was.
#[derive(Clone, Copy, Debug, PartialEq, Eq, Structural)]
pub struct ReportData {
    /// Offset 0x00: the protocol marker.
    pub zeroth_byte: u8,
    /// Offset 0x01.
    pub mode: Mode,
    /// Offset 0x02.
    pub active_layer: Layer,
    /// Offset 0x08.
    pub key_one: KeyCode,
    /// Offset 0x09.
    pub key_five: KeyCode,
    /// Offset 0x0A: macro-table back-reference the device reports for
    /// key three.
    pub macro_key_three: u8,
    /// Offset 0x0B: macro-table back-reference the device reports for
    /// key seven.
    pub macro_key_seven: u8,
    /// Offset 0x0D.
    pub key_two: KeyCode,
    /// Offset 0x0E.
    pub key_six: KeyCode,
    /// Offset 0x12.
    pub key_three: KeyCode,
    /// Offset 0x13.
    pub key_seven: KeyCode,
    /// Offset 0x17.
    pub key_four: KeyCode,
    /// Offset 0x18.
    pub key_eight: KeyCode,
    /// Offset 0x3A.
    pub key_one_red: u8,
    /// Offset 0x3B.
    pub key_two_red: u8,
    /// Offset 0x3C.
    pub key_four_red: u8,
    /// Offset 0x3F.
    pub key_five_red: u8,
    /// Offset 0x40.
    pub key_three_red: u8,
    /// Offset 0x41.
    pub key_eight_red: u8,
    /// Offset 0x45.
    pub key_six_red: u8,
    /// Offset 0x4A.
    pub key_seven_red: u8,
    /// Offset 0x53.
    pub key_one_green: u8,
    /// Offset 0x54.
    pub key_two_green: u8,
    /// Offset 0x55.
    pub key_four_green: u8,
    /// Offset 0x58.
    pub key_five_green: u8,
    /// Offset 0x59.
    pub key_three_green: u8,
    /// Offset 0x5A.
    pub key_eight_green: u8,
    /// Offset 0x5E.
    pub key_six_green: u8,
    /// Offset 0x63.
    pub key_seven_green: u8,
    /// Offset 0x6C.
    pub key_one_blue: u8,
    /// Offset 0x6D.
    pub key_two_blue: u8,
    /// Offset 0x6E.
    pub key_four_blue: u8,
    /// Offset 0x71.
    pub key_five_blue: u8,
    /// Offset 0x72.
    pub key_three_blue: u8,
    /// Offset 0x73.
    pub key_eight_blue: u8,
    /// Offset 0x77.
    pub key_six_blue: u8,
    /// Offset 0x7C.
    pub key_seven_blue: u8,
    /// Offset 0x85.
    pub led_mode: LEDMode,
    /// Offset 0x86.
    pub brightness: Brightness,
    /// Offset 0x87.
    pub flow: Flow,
    /// Offset 0x88.
    pub led_red: u8,
    /// Offset 0x89.
    pub led_green: u8,
    /// Offset 0x8A.
    pub led_blue: u8,
}

impl ReportData {
    /// Every enum-typed field byte of the image holds a known value.
    pub open spec fn spec_fields_valid(s: Seq<u8>) -> bool {
        &&& Mode::spec_from_u8(s[0x01]) is Some
        &&& Layer::spec_from_u8(s[0x02]) is Some
        &&& KeyCode::spec_from_u8(s[0x08]) is Some
        &&& KeyCode::spec_from_u8(s[0x09]) is Some
        &&& KeyCode::spec_from_u8(s[0x0D]) is Some
        &&& KeyCode::spec_from_u8(s[0x0E]) is Some
        &&& KeyCode::spec_from_u8(s[0x12]) is Some
        &&& KeyCode::spec_from_u8(s[0x13]) is Some
        &&& KeyCode::spec_from_u8(s[0x17]) is Some
        &&& KeyCode::spec_from_u8(s[0x18]) is Some
        &&& LEDMode::spec_from_u8(s[0x85]) is Some
        &&& Brightness::spec_from_u8(s[0x86]) is Some
        &&& Flow::spec_from_u8(s[0x87]) is Some
    }

    /// The named fields read out of a report image, or nothing if any
    /// enum-typed field byte holds an unknown value.
    pub open spec fn spec_decode(s: Seq<u8>) -> Option<ReportData> {
        if ReportData::spec_fields_valid(s) {
            Some(
                ReportData {
                    zeroth_byte: s[0x00],
                    mode: Mode::spec_from_u8(s[0x01])->0,
                    active_layer: Layer::spec_from_u8(s[0x02])->0,
                    key_one: KeyCode::spec_from_u8(s[0x08])->0,
                    key_five: KeyCode::spec_from_u8(s[0x09])->0,
                    macro_key_three: s[0x0A],
                    macro_key_seven: s[0x0B],
                    key_two: KeyCode::spec_from_u8(s[0x0D])->0,
                    key_six: KeyCode::spec_from_u8(s[0x0E])->0,
                    key_three: KeyCode::spec_from_u8(s[0x12])->0,
                    key_seven: KeyCode::spec_from_u8(s[0x13])->0,
                    key_four: KeyCode::spec_from_u8(s[0x17])->0,
                    key_eight: KeyCode::spec_from_u8(s[0x18])->0,
                    key_one_red: s[0x3A],
                    key_two_red: s[0x3B],
                    key_four_red: s[0x3C],
                    key_five_red: s[0x3F],
                    key_three_red: s[0x40],
                    key_eight_red: s[0x41],
                    key_six_red: s[0x45],
                    key_seven_red: s[0x4A],
                    key_one_green: s[0x53],
                    key_two_green: s[0x54],
                    key_four_green: s[0x55],
                    key_five_green: s[0x58],
                    key_three_green: s[0x59],
                    key_eight_green: s[0x5A],
                    key_six_green: s[0x5E],
                    key_seven_green: s[0x63],
                    key_one_blue: s[0x6C],
                    key_two_blue: s[0x6D],
                    key_four_blue: s[0x6E],
                    key_five_blue: s[0x71],
                    key_three_blue: s[0x72],
                    key_eight_blue: s[0x73],
                    key_six_blue: s[0x77],
                    key_seven_blue: s[0x7C],
                    led_mode: LEDMode::spec_from_u8(s[0x85])->0,
                    brightness: Brightness::spec_from_u8(s[0x86])->0,
                    flow: Flow::spec_from_u8(s[0x87])->0,
                    led_red: s[0x88],
                    led_green: s[0x89],
                    led_blue: s[0x8A],
                },
            )
        } else {
            None
        }
    }

    /// The image with the header, macro back-references and key-code
    /// fields overwritten by this record's values.
    pub open spec fn spec_encode_keys(s: Seq<u8>, d: ReportData) -> Seq<u8> {
        s.update(0x00, d.zeroth_byte)
            .update(0x01, d.mode.spec_value())
            .update(0x02, d.active_layer.spec_value())
            .update(0x08, d.key_one.spec_value())
            .update(0x09, d.key_five.spec_value())
            .update(0x0A, d.macro_key_three)
            .update(0x0B, d.macro_key_seven)
            .update(0x0D, d.key_two.spec_value())
            .update(0x0E, d.key_six.spec_value())
            .update(0x12, d.key_three.spec_value())
            .update(0x13, d.key_seven.spec_value())
            .update(0x17, d.key_four.spec_value())
            .update(0x18, d.key_eight.spec_value())
    }

    /// The image with the three per-key color bands overwritten by this
    /// record's values.
    pub open spec fn spec_encode_colors(s: Seq<u8>, d: ReportData) -> Seq<u8> {
        s.update(0x3A, d.key_one_red)
            .update(0x3B, d.key_two_red)
            .update(0x3C, d.key_four_red)
            .update(0x3F, d.key_five_red)
            .update(0x40, d.key_three_red)
            .update(0x41, d.key_eight_red)
            .update(0x45, d.key_six_red)
            .update(0x4A, d.key_seven_red)
            .update(0x53, d.key_one_green)
            .update(0x54, d.key_two_green)
            .update(0x55, d.key_four_green)
            .update(0x58, d.key_five_green)
            .update(0x59, d.key_three_green)
            .update(0x5A, d.key_eight_green)
            .update(0x5E, d.key_six_green)
            .update(0x63, d.key_seven_green)
            .update(0x6C, d.key_one_blue)
            .update(0x6D, d.key_two_blue)
            .update(0x6E, d.key_four_blue)
            .update(0x71, d.key_five_blue)
            .update(0x72, d.key_three_blue)
            .update(0x73, d.key_eight_blue)
            .update(0x77, d.key_six_blue)
            .update(0x7C, d.key_seven_blue)
    }

    /// The image with the global LED fields overwritten by this
    /// record's values.
    pub open spec fn spec_encode_led(s: Seq<u8>, d: ReportData) -> Seq<u8> {
        s.update(0x85, d.led_mode.spec_value())
            .update(0x86, d.brightness.spec_value())
            .update(0x87, d.flow.spec_value())
            .update(0x88, d.led_red)
            .update(0x89, d.led_green)
            .update(0x8A, d.led_blue)
    }

    /// The image with every named field overwritten by this record's
    /// value and every reserved byte kept.
    pub open spec fn spec_encode(s: Seq<u8>, d: ReportData) -> Seq<u8> {
        ReportData::spec_encode_led(
            ReportData::spec_encode_colors(ReportData::spec_encode_keys(s, d), d),
            d,
        )
    }

    /// Reads every named field out of the report, or returns nothing
    /// if some enum-typed field byte holds a value this layer does not
    /// know.
    pub fn decode(report: &Report) -> (r: Option<ReportData>)
        ensures
            r == ReportData::spec_decode(report@),
    {
        let b = report.as_bytes();
        let mode = match Mode::from_u8(b[0x01]) {
            Some(m) => m,
            None => {
                return None;
            },
        };
        let active_layer = match Layer::from_u8(b[0x02]) {
            Some(l) => l,
            None => {
                return None;
            },
        };
        let key_one = match KeyCode::from_u8(b[0x08]) {
            Some(k) => k,
            None => {
                return None;
            },
        };
        let key_five = match KeyCode::from_u8(b[0x09]) {
            Some(k) => k,
            None => {
                return None;
            },
        };
        let key_two = match KeyCode::from_u8(b[0x0D]) {
            Some(k) => k,
            None => {
                return None;
            },
        };
        let key_six = match KeyCode::from_u8(b[0x0E]) {
            Some(k) => k,
            None => {
                return None;
            },
        };
        let key_three = match KeyCode::from_u8(b[0x12]) {
            Some(k) => k,
            None => {
                return None;
            },
        };
        let key_seven = match KeyCode::from_u8(b[0x13]) {
            Some(k) => k,
            None => {
                return None;
            },
        };
        let key_four = match KeyCode::from_u8(b[0x17]) {
            Some(k) => k,
            None => {
                return None;
            },
        };
        let key_eight = match KeyCode::from_u8(b[0x18]) {
            Some(k) => k,
            None => {
                return None;
            },
        };
        let led_mode = match LEDMode::from_u8(b[0x85]) {
            Some(m) => m,
            None => {
                return None;
            },
        };
        let brightness = match Brightness::from_u8(b[0x86]) {
            Some(v) => v,
            None => {
                return None;
            },
        };
        let flow = match Flow::from_u8(b[0x87]) {
            Some(f) => f,
            None => {
                return None;
            },
        };
        Some(
            ReportData {
                zeroth_byte: b[0x00],
                mode,
                active_layer,
                key_one,
                key_five,
                macro_key_three: b[0x0A],
                macro_key_seven: b[0x0B],
                key_two,
                key_six,
                key_three,
                key_seven,
                key_four,
                key_eight,
                key_one_red: b[0x3A],
                key_two_red: b[0x3B],
                key_four_red: b[0x3C],
                key_five_red: b[0x3F],
                key_three_red: b[0x40],
                key_eight_red: b[0x41],
                key_six_red: b[0x45],
                key_seven_red: b[0x4A],
                key_one_green: b[0x53],
                key_two_green: b[0x54],
                key_four_green: b[0x55],
                key_five_green: b[0x58],
                key_three_green: b[0x59],
                key_eight_green: b[0x5A],
                key_six_green: b[0x5E],
                key_seven_green: b[0x63],
                key_one_blue: b[0x6C],
                key_two_blue: b[0x6D],
                key_four_blue: b[0x6E],
                key_five_blue: b[0x71],
                key_three_blue: b[0x72],
                key_eight_blue: b[0x73],
                key_six_blue: b[0x77],
                key_seven_blue: b[0x7C],
                led_mode,
                brightness,
                flow,
                led_red: b[0x88],
                led_green: b[0x89],
                led_blue: b[0x8A],
            },
        )
    }

    /// Writes every named field of this record into the report at its
    /// fixed offset; the reserved bytes in between keep what the
    /// report already held.
    pub fn encode_into(&self, report: &mut Report)
        ensures
            final(report)@ == ReportData::spec_encode(old(report)@, *self),
    {
        report.set_byte(0x00, self.zeroth_byte);
        report.set_byte(0x01, self.mode.value());
        report.set_byte(0x02, self.active_layer.value());
        report.set_byte(0x08, self.key_one.value());
        report.set_byte(0x09, self.key_five.value());
        report.set_byte(0x0A, self.macro_key_three);
        report.set_byte(0x0B, self.macro_key_seven);
        report.set_byte(0x0D, self.key_two.value());
        report.set_byte(0x0E, self.key_six.value());
        report.set_byte(0x12, self.key_three.value());
        report.set_byte(0x13, self.key_seven.value());
        report.set_byte(0x17, self.key_four.value());
        report.set_byte(0x18, self.key_eight.value());
        report.set_byte(0x3A, self.key_one_red);
        report.set_byte(0x3B, self.key_two_red);
        report.set_byte(0x3C, self.key_four_red);
        report.set_byte(0x3F, self.key_five_red);
        report.set_byte(0x40, self.key_three_red);
        report.set_byte(0x41, self.key_eight_red);
        report.set_byte(0x45, self.key_six_red);
        report.set_byte(0x4A, self.key_seven_red);
        report.set_byte(0x53, self.key_one_green);
        report.set_byte(0x54, self.key_two_green);
        report.set_byte(0x55, self.key_four_green);
        report.set_byte(0x58, self.key_five_green);
        report.set_byte(0x59, self.key_three_green);
        report.set_byte(0x5A, self.key_eight_green);
        report.set_byte(0x5E, self.key_six_green);
        report.set_byte(0x63, self.key_seven_green);
        report.set_byte(0x6C, self.key_one_blue);
        report.set_byte(0x6D, self.key_two_blue);
        report.set_byte(0x6E, self.key_four_blue);
        report.set_byte(0x71, self.key_five_blue);
        report.set_byte(0x72, self.key_three_blue);
        report.set_byte(0x73, self.key_eight_blue);
        report.set_byte(0x77, self.key_six_blue);
        report.set_byte(0x7C, self.key_seven_blue);
        report.set_byte(0x85, self.led_mode.value());
        report.set_byte(0x86, self.brightness.value());
        report.set_byte(0x87, self.flow.value());
        report.set_byte(0x88, self.led_red);
        report.set_byte(0x89, self.led_green);
        report.set_byte(0x8A, self.led_blue);
    }
}

/// Round trip one way: encoding any record into any 264-byte image and
/// decoding the result reads back exactly the record, field for field,
/// whatever modes, layers, key codes and LED settings it holds.
#[verifier::rlimit(100)]
pub proof fn lemma_encode_then_decode(s: Seq<u8>, d: ReportData)
    requires
        s.len() == 264,
    ensures
        ReportData::spec_decode(ReportData::spec_encode(s, d)) == Some(d),
{
    lemma_keycode_code_injective(d.key_one);
    lemma_keycode_code_injective(d.key_two);
    lemma_keycode_code_injective(d.key_three);
    lemma_keycode_code_injective(d.key_four);
    lemma_keycode_code_injective(d.key_five);
    lemma_keycode_code_injective(d.key_six);
    lemma_keycode_code_injective(d.key_seven);
    lemma_keycode_code_injective(d.key_eight);
    let s2 = ReportData::spec_encode(s, d);
    assert(ReportData::spec_fields_valid(s2));
    assert(ReportData::spec_decode(s2)->0 == d);
}

/// Round trip the other way: a report image whose fields all decode is
/// reproduced bit for bit when the decoded record is encoded back into
/// it — the codec is an identity transform on every image it accepts.
#[verifier::rlimit(100)]
pub proof fn lemma_decode_then_encode(s: Seq<u8>)
    requires
        s.len() == 264,
        ReportData::spec_decode(s) is Some,
    ensures
        ReportData::spec_encode(s, ReportData::spec_decode(s)->0) == s,
{
    lemma_keycode_decode_value(s[0x08]);
    lemma_keycode_decode_value(s[0x09]);
    lemma_keycode_decode_value(s[0x0D]);
    lemma_keycode_decode_value(s[0x0E]);
    lemma_keycode_decode_value(s[0x12]);
    lemma_keycode_decode_value(s[0x13]);
    lemma_keycode_decode_value(s[0x17]);
    lemma_keycode_decode_value(s[0x18]);
    let d = ReportData::spec_decode(s)->0;
    assert(ReportData::spec_encode_keys(s, d) =~= s);
    assert(ReportData::spec_encode_colors(s, d) =~= s);
    assert(ReportData::spec_encode_led(s, d) =~= s);
    assert(ReportData::spec_encode(s, d) == s);
}

} // verus!
