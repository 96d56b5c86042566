use vstd::prelude::*;

use crate::Error;
use crate::keys::Key;
use crate::mode::Mode;
use crate::report::Report;

verus! {

/// LED animation mode, stored in report byte `0x85`.
///
/// Color data is only meaningful under `Custom`; the other modes use
/// the global color or no color at all.
#[derive(Clone, Copy, Debug, PartialEq, Eq, Structural)]
pub enum LEDMode {
    Static,
    Breathing,
    FadeIn,
    FadeOut,
    LastKeystroke,
    RGBWave,
    RGBRandom,
    Custom,
}

/// LED brightness level, stored in report byte `0x86`.
#[derive(Clone, Copy, Debug, PartialEq, Eq, Structural)]
pub enum Brightness {
    Off,
    Low,
    Medium,
    High,
    Max,
}

/// Direction of the LED animation, stored in report byte `0x87`.
#[derive(Clone, Copy, Debug, PartialEq, Eq, Structural)]
pub enum Flow {
    RightToLeft,
    LeftToRight,
    TopToBottom,
    Spinning,
    Constant,
}

impl LEDMode {
    /// On-wire value of this mode.
    pub open spec fn spec_value(self) -> u8 {
        match self {
            LEDMode::Static => 0,
            LEDMode::Breathing => 1,
            LEDMode::FadeIn => 2,
            LEDMode::FadeOut => 3,
            LEDMode::LastKeystroke => 4,
            LEDMode::RGBWave => 5,
            LEDMode::RGBRandom => 6,
            LEDMode::Custom => 7,
        }
    }

    #[verifier::when_used_as_spec(spec_value)]
    pub fn value(self) -> (v: u8)
        ensures
            v == self.spec_value(),
    {
        match self {
            LEDMode::Static => 0,
            LEDMode::Breathing => 1,
            LEDMode::FadeIn => 2,
            LEDMode::FadeOut => 3,
            LEDMode::LastKeystroke => 4,
            LEDMode::RGBWave => 5,
            LEDMode::RGBRandom => 6,
            LEDMode::Custom => 7,
        }
    }

    /// The mode encoded by an on-wire value, if it is one.
    pub open spec fn spec_from_u8(v: u8) -> Option<LEDMode> {
        if v == 0 {
            Some(LEDMode::Static)
        } else if v == 1 {
            Some(LEDMode::Breathing)
        } else if v == 2 {
            Some(LEDMode::FadeIn)
        } else if v == 3 {
            Some(LEDMode::FadeOut)
        } else if v == 4 {
            Some(LEDMode::LastKeystroke)
        } else if v == 5 {
            Some(LEDMode::RGBWave)
        } else if v == 6 {
            Some(LEDMode::RGBRandom)
        } else if v == 7 {
            Some(LEDMode::Custom)
        } else {
            None
        }
    }

    #[verifier::when_used_as_spec(spec_from_u8)]
    pub fn from_u8(v: u8) -> (m: Option<LEDMode>)
        ensures
            m == LEDMode::spec_from_u8(v),
    {
        if v == 0 {
            Some(LEDMode::Static)
        } else if v == 1 {
            Some(LEDMode::Breathing)
        } else if v == 2 {
            Some(LEDMode::FadeIn)
        } else if v == 3 {
            Some(LEDMode::FadeOut)
        } else if v == 4 {
            Some(LEDMode::LastKeystroke)
        } else if v == 5 {
            Some(LEDMode::RGBWave)
        } else if v == 6 {
            Some(LEDMode::RGBRandom)
        } else if v == 7 {
            Some(LEDMode::Custom)
        } else {
            None
        }
    }
}

impl Brightness {
    /// On-wire value of this brightness level.
    pub open spec fn spec_value(self) -> u8 {
        match self {
            Brightness::Off => 0,
            Brightness::Low => 1,
            Brightness::Medium => 2,
            Brightness::High => 3,
            Brightness::Max => 4,
        }
    }

    #[verifier::when_used_as_spec(spec_value)]
    pub fn value(self) -> (v: u8)
        ensures
            v == self.spec_value(),
    {
        match self {
            Brightness::Off => 0,
            Brightness::Low => 1,
            Brightness::Medium => 2,
            Brightness::High => 3,
            Brightness::Max => 4,
        }
    }

    /// The brightness encoded by an on-wire value, if it is one.
    pub open spec fn spec_from_u8(v: u8) -> Option<Brightness> {
        if v == 0 {
            Some(Brightness::Off)
        } else if v == 1 {
            Some(Brightness::Low)
        } else if v == 2 {
            Some(Brightness::Medium)
        } else if v == 3 {
            Some(Brightness::High)
        } else if v == 4 {
            Some(Brightness::Max)
        } else {
            None
        }
    }

    #[verifier::when_used_as_spec(spec_from_u8)]
    pub fn from_u8(v: u8) -> (b: Option<Brightness>)
        ensures
            b == Brightness::spec_from_u8(v),
    {
        if v == 0 {
            Some(Brightness::Off)
        } else if v == 1 {
            Some(Brightness::Low)
        } else if v == 2 {
            Some(Brightness::Medium)
        } else if v == 3 {
            Some(Brightness::High)
        } else if v == 4 {
            Some(Brightness::Max)
        } else {
            None
        }
    }
}

impl Flow {
    /// On-wire value of this flow direction.
    pub open spec fn spec_value(self) -> u8 {
        match self {
            Flow::RightToLeft => 0,
            Flow::LeftToRight => 1,
            Flow::TopToBottom => 2,
            Flow::Spinning => 3,
            Flow::Constant => 4,
        }
    }

    #[verifier::when_used_as_spec(spec_value)]
    pub fn value(self) -> (v: u8)
        ensures
            v == self.spec_value(),
    {
        match self {
            Flow::RightToLeft => 0,
            Flow::LeftToRight => 1,
            Flow::TopToBottom => 2,
            Flow::Spinning => 3,
            Flow::Constant => 4,
        }
    }

    /// The flow encoded by an on-wire value, if it is one.
    pub open spec fn spec_from_u8(v: u8) -> Option<Flow> {
        if v == 0 {
            Some(Flow::RightToLeft)
        } else if v == 1 {
            Some(Flow::LeftToRight)
        } else if v == 2 {
            Some(Flow::TopToBottom)
        } else if v == 3 {
            Some(Flow::Spinning)
        } else if v == 4 {
            Some(Flow::Constant)
        } else {
            None
        }
    }

    #[verifier::when_used_as_spec(spec_from_u8)]
    pub fn from_u8(v: u8) -> (f: Option<Flow>)
        ensures
            f == Flow::spec_from_u8(v),
    {
        if v == 0 {
            Some(Flow::RightToLeft)
        } else if v == 1 {
            Some(Flow::LeftToRight)
        } else if v == 2 {
            Some(Flow::TopToBottom)
        } else if v == 3 {
            Some(Flow::Spinning)
        } else if v == 4 {
            Some(Flow::Constant)
        } else {
            None
        }
    }
}

/// Decoding an encoded LED mode restores the mode.
pub proof fn lemma_led_mode_code_injective(m: LEDMode)
    ensures
        LEDMode::spec_from_u8(m.spec_value()) == Some(m),
{
}

/// Decoding an encoded brightness restores the brightness.
pub proof fn lemma_brightness_code_injective(b: Brightness)
    ensures
        Brightness::spec_from_u8(b.spec_value()) == Some(b),
{
}

/// Decoding an encoded flow restores the flow.
pub proof fn lemma_flow_code_injective(f: Flow)
    ensures
        Flow::spec_from_u8(f.spec_value()) == Some(f),
{
}

/// Pending, not-yet-applied LED configuration.
///
/// Every field starts unset; only set fields are written into a report.
/// The global color and the per-key colors are mode-gated: a non-zero
/// value in either is only legal while the staged mode is
/// [`LEDMode::Custom`], and the merge rejects anything else before any
/// report is touched.
#[derive(Clone, Copy, Debug, PartialEq, Eq)]
pub struct LEDControls {
    pub mode: Option<LEDMode>,
    pub brightness: Option<Brightness>,
    pub flow: Option<Flow>,
    /// Global color, red-green-blue; all zero means unset.
    pub color: [u8; 3],
    /// Per-key colors, three bytes per key in key-ordinal order; all
    /// zero means unset.
    pub key_colors: [u8; 24],
}

impl LEDControls {
    /// Staged controls with nothing set.
    pub fn new() -> (c: LEDControls)
        ensures
            c.mode is None,
            c.brightness is None,
            c.flow is None,
            c.spec_color_unset(),
            c.spec_key_colors_unset(),
    {
        LEDControls {
            mode: None,
            brightness: None,
            flow: None,
            color: [0; 3],
            key_colors: [0; 24],
        }
    }

    /// No byte of the staged global color is set.
    pub open spec fn spec_color_unset(self) -> bool {
        forall|i: int| 0 <= i < 3 ==> self.color@[i] == 0u8
    }

    /// No byte of any staged per-key color is set.
    pub open spec fn spec_key_colors_unset(self) -> bool {
        forall|i: int| 0 <= i < 24 ==> self.key_colors@[i] == 0u8
    }

    /// The mode-gating rule: any non-zero global or per-key color
    /// requires the staged mode to be exactly `Custom`.
    pub open spec fn spec_colors_allowed(self) -> bool {
        &&& self.spec_color_unset() || self.mode == Some(LEDMode::Custom)
        &&& self.spec_key_colors_unset() || self.mode == Some(LEDMode::Custom)
    }

    pub fn set_mode(&mut self, mode: LEDMode)
        ensures
            *final(self) == (LEDControls { mode: Some(mode), ..*old(self) }),
    {
        self.mode = Some(mode);
    }

    pub fn set_brightness(&mut self, brightness: Brightness)
        ensures
            *final(self) == (LEDControls { brightness: Some(brightness), ..*old(self) }),
    {
        self.brightness = Some(brightness);
    }

    pub fn set_flow(&mut self, flow: Flow)
        ensures
            *final(self) == (LEDControls { flow: Some(flow), ..*old(self) }),
    {
        self.flow = Some(flow);
    }

    /// Stages the overall color of the LEDs; meaningful under every
    /// mode except `Custom`, which uses the per-key colors instead.
    pub fn set_color(&mut self, color: (u8, u8, u8))
        ensures
            final(self).color@ == seq![color.0, color.1, color.2],
            final(self).mode == old(self).mode,
            final(self).brightness == old(self).brightness,
            final(self).flow == old(self).flow,
            final(self).key_colors == old(self).key_colors,
    {
        self.color = [color.0, color.1, color.2];
        proof {
            assert(self.color@ =~= seq![color.0, color.1, color.2]);
        }
    }

    /// Stages the color of one key; meaningful under `Custom` only.
    pub fn set_key_color(&mut self, key: Key, color: (u8, u8, u8))
        ensures
            final(self).key_colors@ == old(self).key_colors@.update(
                3 * key.spec_ordinal(),
                color.0,
            ).update(3 * key.spec_ordinal() + 1, color.1).update(
                3 * key.spec_ordinal() + 2,
                color.2,
            ),
            final(self).mode == old(self).mode,
            final(self).brightness == old(self).brightness,
            final(self).flow == old(self).flow,
            final(self).color == old(self).color,
    {
        let idx = key.ordinal() * 3;
        self.key_colors[idx] = color.0;
        self.key_colors[idx + 1] = color.1;
        self.key_colors[idx + 2] = color.2;
    }

    /// Clears the staged color of one key back to unset.
    pub fn disable_key_color(&mut self, key: Key)
        ensures
            final(self).key_colors@ == old(self).key_colors@.update(
                3 * key.spec_ordinal(),
                0u8,
            ).update(3 * key.spec_ordinal() + 1, 0u8).update(3 * key.spec_ordinal() + 2, 0u8),
            final(self).mode == old(self).mode,
            final(self).brightness == old(self).brightness,
            final(self).flow == old(self).flow,
            final(self).color == old(self).color,
    {
        let idx = key.ordinal() * 3;
        self.key_colors[idx] = 0;
        self.key_colors[idx + 1] = 0;
        self.key_colors[idx + 2] = 0;
    }

    fn color_unset(&self) -> (b: bool)
        ensures
            b == self.spec_color_unset(),
    {
        self.color[0] == 0 && self.color[1] == 0 && self.color[2] == 0
    }

    fn key_colors_unset(&self) -> (b: bool)
        ensures
            b == self.spec_key_colors_unset(),
    {
        let mut i: usize = 0;
        while i < 24
            invariant
                i <= 24,
                forall|j: int| 0 <= j < i ==> self.key_colors@[j] == 0u8,
            decreases 24 - i,
        {
            if self.key_colors[i] != 0 {
                return false;
            }
            i = i + 1;
        }
        true
    }

    fn mode_is_custom(&self) -> (b: bool)
        ensures
            b == (self.mode == Some(LEDMode::Custom)),
    {
        match self.mode {
            Some(LEDMode::Custom) => true,
            _ => false,
        }
    }

    /// Merges the staged LED configuration into a report.
    ///
    /// Validation runs first: if any color is staged while the staged
    /// mode is not `Custom`, the merge fails with
    /// [`Error::InvalidParam`] and the report is left untouched.
    /// Otherwise each set field overwrites its report byte, and each
    /// key whose staged color is non-zero gets its three color bytes
    /// written; unset fields and all-zero key chunks leave the report
    /// as the device filled it.
    pub fn apply_to_report(&self, report: &mut Report) -> (r: Result<(), Error>)
        ensures
            r is Ok <==> self.spec_colors_allowed(),
            r is Ok ==> final(report)@ == spec_apply_led_controls(old(report)@, *self),
            r is Err ==> final(report)@ == old(report)@ && r == Err::<(), Error>(
                Error::InvalidParam,
            ),
    {
        let custom = self.mode_is_custom();
        if !self.color_unset() && !custom {
            return Err(Error::InvalidParam);
        }
        if !self.key_colors_unset() && !custom {
            return Err(Error::InvalidParam);
        }

        if let Some(mode) = self.mode {
            report.set_byte(0x85, mode.value());
        }
        if let Some(brightness) = self.brightness {
            report.set_byte(0x86, brightness.value());
        }
        if let Some(flow) = self.flow {
            report.set_byte(0x87, flow.value());
        }
        if !self.color_unset() {
            report.set_byte(0x88, self.color[0]);
            report.set_byte(0x89, self.color[1]);
            report.set_byte(0x8A, self.color[2]);
        }
        if !self.key_colors_unset() {
            let ghost mid = report@;
            let mut k: usize = 0;
            while k < 8
                invariant
                    k <= 8,
                    report@ == spec_apply_key_colors_prefix(mid, self.key_colors@, k as int),
                decreases 8 - k,
            {
                let idx = k * 3;
                let red = self.key_colors[idx];
                let green = self.key_colors[idx + 1];
                let blue = self.key_colors[idx + 2];
                if red != 0 || green != 0 || blue != 0 {
                    let key = Key::from_u8(k as u8).unwrap();
                    report.set_key_color(key, (red, green, blue));
                }
                k = k + 1;
            }
        }
        Ok(())
    }
}

/// One key's staged color merged into a report image: no change when
/// the three staged bytes are all zero, otherwise the three bytes
/// written at the key's color offsets.
pub open spec fn spec_apply_one_key_color(s: Seq<u8>, key_colors: Seq<u8>, k: int) -> Seq<u8> {
    if key_colors[3 * k] == 0u8 && key_colors[3 * k + 1] == 0u8 && key_colors[3 * k + 2] == 0u8 {
        s
    } else {
        let key = Key::spec_from_u8(k as u8)->0;
        s.update(key.spec_color_indices().0, key_colors[3 * k]).update(
            key.spec_color_indices().1,
            key_colors[3 * k + 1],
        ).update(key.spec_color_indices().2, key_colors[3 * k + 2])
    }
}

/// The staged colors of the first `n` keys merged into a report image,
/// in key order.
pub open spec fn spec_apply_key_colors_prefix(s: Seq<u8>, key_colors: Seq<u8>, n: int) -> Seq<u8>
    decreases n,
{
    if n <= 0 {
        s
    } else {
        spec_apply_one_key_color(spec_apply_key_colors_prefix(s, key_colors, n - 1), key_colors, n - 1)
    }
}

/// The set global LED fields merged into a report image: mode,
/// brightness and flow bytes where staged, then the global color bytes
/// where the staged global color is non-zero.
pub open spec fn spec_apply_led_globals(s: Seq<u8>, c: LEDControls) -> Seq<u8> {
    let s1 = if c.mode is Some {
        s.update(0x85, c.mode->0.spec_value())
    } else {
        s
    };
    let s2 = if c.brightness is Some {
        s1.update(0x86, c.brightness->0.spec_value())
    } else {
        s1
    };
    let s3 = if c.flow is Some {
        s2.update(0x87, c.flow->0.spec_value())
    } else {
        s2
    };
    if !c.spec_color_unset() {
        s3.update(0x88, c.color@[0]).update(0x89, c.color@[1]).update(0x8A, c.color@[2])
    } else {
        s3
    }
}

/// The whole staged LED configuration merged into a report image.
pub open spec fn spec_apply_led_controls(s: Seq<u8>, c: LEDControls) -> Seq<u8> {
    let t = spec_apply_led_globals(s, c);
    if !c.spec_key_colors_unset() {
        spec_apply_key_colors_prefix(t, c.key_colors@, 8)
    } else {
        t
    }
}

/// The write-phase report of an LED update: the state the device just
/// reported, re-tagged with the `KeyWrite` opcode, its trailing bytes
/// zeroed, and the staged LED controls merged in — or
/// [`Error::InvalidParam`] if a color is staged without `Custom` mode,
/// in which case nothing is to be sent.
pub fn led_write_report(current: &Report, controls: &LEDControls) -> (r: Result<Report, Error>)
    ensures
        r is Ok <==> controls.spec_colors_allowed(),
        r matches Ok(rep) ==> rep@ == spec_apply_led_controls(
            Report::spec_clear_end(Report::spec_set_mode(current@, Mode::KeyWrite)),
            *controls,
        ),
        r is Err ==> r == Err::<Report, Error>(Error::InvalidParam),
{
    let mut rep = *current;
    rep.set_mode(Mode::KeyWrite);
    rep.clear_end();
    match controls.apply_to_report(&mut rep) {
        Ok(()) => Ok(rep),
        Err(e) => Err(e),
    }
}

} // verus!
