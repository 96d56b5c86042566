use vstd::prelude::*;

verus! {

/// Protocol opcode carried in byte 1 of every report.
///
/// Write-flavored modes ask the device to apply the supplied state;
/// the read-flavored `KeyRead` asks it to return its current state.
/// Each mode's on-wire value is listed explicitly in [`Mode::spec_value`]
/// so that every opcode can be audited on its own.
#[derive(Clone, Copy, Debug, PartialEq, Eq, Structural)]
pub enum Mode {
    LayerWrite,
    KeyWrite,
    MacroWrite,
    Finalize,
    KeyRead,
}

impl Mode {
    /// On-wire opcode of this mode.
    pub open spec fn spec_value(self) -> u8 {
        match self {
            Mode::LayerWrite => 0x01,
            Mode::KeyWrite => 0x02,
            Mode::MacroWrite => 0x05,
            Mode::Finalize => 0x06,
            Mode::KeyRead => 0x82,
        }
    }

    #[verifier::when_used_as_spec(spec_value)]
    pub fn value(self) -> (v: u8)
        ensures
            v == self.spec_value(),
    {
        match self {
            Mode::LayerWrite => 0x01,
            Mode::KeyWrite => 0x02,
            Mode::MacroWrite => 0x05,
            Mode::Finalize => 0x06,
            Mode::KeyRead => 0x82,
        }
    }

    /// The mode encoded by an on-wire opcode, if it is one.
    pub open spec fn spec_from_u8(v: u8) -> Option<Mode> {
        if v == 0x01 {
            Some(Mode::LayerWrite)
        } else if v == 0x02 {
            Some(Mode::KeyWrite)
        } else if v == 0x05 {
            Some(Mode::MacroWrite)
        } else if v == 0x06 {
            Some(Mode::Finalize)
        } else if v == 0x82 {
            Some(Mode::KeyRead)
        } else {
            None
        }
    }

    #[verifier::when_used_as_spec(spec_from_u8)]
    pub fn from_u8(v: u8) -> (m: Option<Mode>)
        ensures
            m == Mode::spec_from_u8(v),
    {
        if v == 0x01 {
            Some(Mode::LayerWrite)
        } else if v == 0x02 {
            Some(Mode::KeyWrite)
        } else if v == 0x05 {
            Some(Mode::MacroWrite)
        } else if v == 0x06 {
            Some(Mode::Finalize)
        } else if v == 0x82 {
            Some(Mode::KeyRead)
        } else {
            None
        }
    }
}

/// Decoding an encoded mode restores the mode: distinct modes keep
/// distinct opcodes.
pub proof fn lemma_mode_code_injective(m: Mode)
    ensures
        Mode::spec_from_u8(m.spec_value()) == Some(m),
{
}

} // verus!
