use vstd::prelude::*;

verus! {

/// Symbolic HID-style key identifier.
///
/// A key code is the payload assigned to one of the eight key slots,
/// or the key named inside a macro event.  Its numeric value is what
/// goes on the wire; the value of every variant is listed explicitly in
/// [`KeyCode::spec_value`], including the device-specific codes above
/// `0xB3` (layer switching, LED cycling, mouse buttons, lock).
/// `Disable` (value 0) marks a slot whose device-side mapping is to be
/// left untouched by an update.
#[derive(Clone, Copy, Debug, PartialEq, Eq, Structural)]
pub enum KeyCode {
    Disable,
    ErrOvf,
    PostFail,
    ErrUndefined,
    A,
    B,
    C,
    D,
    E,
    F,
    G,
    H,
    I,
    J,
    K,
    L,
    M,
    N,
    O,
    P,
    Q,
    R,
    S,
    T,
    U,
    V,
    W,
    X,
    Y,
    Z,
    One,
    Two,
    Three,
    Four,
    Five,
    Six,
    Seven,
    Eight,
    Nine,
    Zero,
    Enter,
    Esc,
    Backspace,
    Tab,
    Space,
    Minus,
    Equal,
    Leftbrace,
    Rightbrace,
    Backslash,
    Hashtilde,
    Semicolon,
    Apostrophe,
    Grave,
    Comma,
    Dot,
    Slash,
    Capslock,
    F1,
    F2,
    F3,
    F4,
    F5,
    F6,
    F7,
    F8,
    F9,
    F10,
    F11,
    F12,
    Sysrq,
    Scrolllock,
    Pause,
    Insert,
    Home,
    Pageup,
    Delete,
    End,
    Pagedown,
    Right,
    Left,
    Down,
    Up,
    Numlock,
    KPSlash,
    KPAsterisk,
    KPMinus,
    KPPlus,
    KPEnter,
    KP1,
    KP2,
    KP3,
    KP4,
    KP5,
    KP6,
    KP7,
    KP8,
    KP9,
    KP0,
    KPDot,
    _102ND,
    Compose,
    Power,
    KPEqual,
    F13,
    F14,
    F15,
    F16,
    F17,
    F18,
    F19,
    F20,
    F21,
    F22,
    F23,
    F24,
    Open,
    Help,
    Props,
    Front,
    Stop,
    Again,
    Undo,
    Cut,
    Copy,
    Paste,
    Find,
    _MUTE,
    _VOLUP,
    _VOLDN,
    _CAPSLOCK,
    _NUMLOCK,
    _SCROLLLOCK,
    _KPCOMMA,
    _EQUALS,
    _RO,
    _KATAKANAHIRAGANA,
    _YEN,
    _HENKAN,
    _MUHENKAN,
    _KPJPCOMMA,
    _I7,
    _I8,
    _I9,
    _HANGEUL,
    _HANJA,
    _KATAKANA,
    _HIRAGANA,
    _ZENKAKUHANKAKU,
    _L6,
    _L7,
    _L8,
    _L9,
    _AE,
    _SYSREQ,
    _CANCEL,
    _CLEAR,
    _PRIOR,
    _RETURN,
    _SEPARATOR,
    _OUT,
    _OPER,
    _CLEARAGAIN,
    _CRSEL,
    MediaLaunch,
    MediaStop,
    MediaPrevious,
    PlayPause,
    MediaNext,
    Mute,
    VolumeDown,
    VolumeUp,
    Layer1,
    Layer2,
    Layer3,
    Layer4,
    Layer5,
    LayerCycle,
    LEDBrightnessCycle,
    LedModeCycle,
    MouseLeftClick,
    MouseRightClick,
    MouseMiddleClick,
    MouseBackward,
    MouseForward,
    DoNotUseLaunchProgram,
    SetMacro,
    LockUnlockWholeS,
    Leftctrl,
    Leftshift,
    Leftalt,
    Leftmeta,
}

impl KeyCode {
    /// On-wire numeric value of this key code.
    ///
    /// Kept opaque: the table is large, and proofs only ever need the
    /// two inversion lemmas below, which reveal it locally.
    #[verifier::opaque]
    pub open spec fn spec_value(self) -> u8 {
        match self {
            KeyCode::Disable => 0x00,
            KeyCode::ErrOvf => 0x01,
            KeyCode::PostFail => 0x02,
            KeyCode::ErrUndefined => 0x03,
            KeyCode::A => 0x04,
            KeyCode::B => 0x05,
            KeyCode::C => 0x06,
            KeyCode::D => 0x07,
            KeyCode::E => 0x08,
            KeyCode::F => 0x09,
            KeyCode::G => 0x0a,
            KeyCode::H => 0x0b,
            KeyCode::I => 0x0c,
            KeyCode::J => 0x0d,
            KeyCode::K => 0x0e,
            KeyCode::L => 0x0f,
            KeyCode::M => 0x10,
            KeyCode::N => 0x11,
            KeyCode::O => 0x12,
            KeyCode::P => 0x13,
            KeyCode::Q => 0x14,
            KeyCode::R => 0x15,
            KeyCode::S => 0x16,
            KeyCode::T => 0x17,
            KeyCode::U => 0x18,
            KeyCode::V => 0x19,
            KeyCode::W => 0x1a,
            KeyCode::X => 0x1b,
            KeyCode::Y => 0x1c,
            KeyCode::Z => 0x1d,
            KeyCode::One => 0x1e,
            KeyCode::Two => 0x1f,
            KeyCode::Three => 0x20,
            KeyCode::Four => 0x21,
            KeyCode::Five => 0x22,
            KeyCode::Six => 0x23,
            KeyCode::Seven => 0x24,
            KeyCode::Eight => 0x25,
            KeyCode::Nine => 0x26,
            KeyCode::Zero => 0x27,
            KeyCode::Enter => 0x28,
            KeyCode::Esc => 0x29,
            KeyCode::Backspace => 0x2a,
            KeyCode::Tab => 0x2b,
            KeyCode::Space => 0x2c,
            KeyCode::Minus => 0x2d,
            KeyCode::Equal => 0x2e,
            KeyCode::Leftbrace => 0x2f,
            KeyCode::Rightbrace => 0x30,
            KeyCode::Backslash => 0x31,
            KeyCode::Hashtilde => 0x32,
            KeyCode::Semicolon => 0x33,
            KeyCode::Apostrophe => 0x34,
            KeyCode::Grave => 0x35,
            KeyCode::Comma => 0x36,
            KeyCode::Dot => 0x37,
            KeyCode::Slash => 0x38,
            KeyCode::Capslock => 0x39,
            KeyCode::F1 => 0x3a,
            KeyCode::F2 => 0x3b,
            KeyCode::F3 => 0x3c,
            KeyCode::F4 => 0x3d,
            KeyCode::F5 => 0x3e,
            KeyCode::F6 => 0x3f,
            KeyCode::F7 => 0x40,
            KeyCode::F8 => 0x41,
            KeyCode::F9 => 0x42,
            KeyCode::F10 => 0x43,
            KeyCode::F11 => 0x44,
            KeyCode::F12 => 0x45,
            KeyCode::Sysrq => 0x46,
            KeyCode::Scrolllock => 0x47,
            KeyCode::Pause => 0x48,
            KeyCode::Insert => 0x49,
            KeyCode::Home => 0x4a,
            KeyCode::Pageup => 0x4b,
            KeyCode::Delete => 0x4c,
            KeyCode::End => 0x4d,
            KeyCode::Pagedown => 0x4e,
            KeyCode::Right => 0x4f,
            KeyCode::Left => 0x50,
            KeyCode::Down => 0x51,
            KeyCode::Up => 0x52,
            KeyCode::Numlock => 0x53,
            KeyCode::KPSlash => 0x54,
            KeyCode::KPAsterisk => 0x55,
            KeyCode::KPMinus => 0x56,
            KeyCode::KPPlus => 0x57,
            KeyCode::KPEnter => 0x58,
            KeyCode::KP1 => 0x59,
            KeyCode::KP2 => 0x5a,
            KeyCode::KP3 => 0x5b,
            KeyCode::KP4 => 0x5c,
            KeyCode::KP5 => 0x5d,
            KeyCode::KP6 => 0x5e,
            KeyCode::KP7 => 0x5f,
            KeyCode::KP8 => 0x60,
            KeyCode::KP9 => 0x61,
            KeyCode::KP0 => 0x62,
            KeyCode::KPDot => 0x63,
            KeyCode::_102ND => 0x64,
            KeyCode::Compose => 0x65,
            KeyCode::Power => 0x66,
            KeyCode::KPEqual => 0x67,
            KeyCode::F13 => 0x68,
            KeyCode::F14 => 0x69,
            KeyCode::F15 => 0x6a,
            KeyCode::F16 => 0x6b,
            KeyCode::F17 => 0x6c,
            KeyCode::F18 => 0x6d,
            KeyCode::F19 => 0x6e,
            KeyCode::F20 => 0x6f,
            KeyCode::F21 => 0x70,
            KeyCode::F22 => 0x71,
            KeyCode::F23 => 0x72,
            KeyCode::F24 => 0x73,
            KeyCode::Open => 0x74,
            KeyCode::Help => 0x75,
            KeyCode::Props => 0x76,
            KeyCode::Front => 0x77,
            KeyCode::Stop => 0x78,
            KeyCode::Again => 0x79,
            KeyCode::Undo => 0x7a,
            KeyCode::Cut => 0x7b,
            KeyCode::Copy => 0x7c,
            KeyCode::Paste => 0x7d,
            KeyCode::Find => 0x7e,
            KeyCode::_MUTE => 0x7f,
            KeyCode::_VOLUP => 0x80,
            KeyCode::_VOLDN => 0x81,
            KeyCode::_CAPSLOCK => 0x82,
            KeyCode::_NUMLOCK => 0x83,
            KeyCode::_SCROLLLOCK => 0x84,
            KeyCode::_KPCOMMA => 0x85,
            KeyCode::_EQUALS => 0x86,
            KeyCode::_RO => 0x87,
            KeyCode::_KATAKANAHIRAGANA => 0x88,
            KeyCode::_YEN => 0x89,
            KeyCode::_HENKAN => 0x8a,
            KeyCode::_MUHENKAN => 0x8b,
            KeyCode::_KPJPCOMMA => 0x8c,
            KeyCode::_I7 => 0x8d,
            KeyCode::_I8 => 0x8e,
            KeyCode::_I9 => 0x8f,
            KeyCode::_HANGEUL => 0x90,
            KeyCode::_HANJA => 0x91,
            KeyCode::_KATAKANA => 0x92,
            KeyCode::_HIRAGANA => 0x93,
            KeyCode::_ZENKAKUHANKAKU => 0x94,
            KeyCode::_L6 => 0x95,
            KeyCode::_L7 => 0x96,
            KeyCode::_L8 => 0x97,
            KeyCode::_L9 => 0x98,
            KeyCode::_AE => 0x99,
            KeyCode::_SYSREQ => 0x9a,
            KeyCode::_CANCEL => 0x9b,
            KeyCode::_CLEAR => 0x9c,
            KeyCode::_PRIOR => 0x9d,
            KeyCode::_RETURN => 0x9e,
            KeyCode::_SEPARATOR => 0x9f,
            KeyCode::_OUT => 0xa0,
            KeyCode::_OPER => 0xa1,
            KeyCode::_CLEARAGAIN => 0xa2,
            KeyCode::_CRSEL => 0xa3,
            KeyCode::MediaLaunch => 0xa4,
            KeyCode::MediaStop => 0xa5,
            KeyCode::MediaPrevious => 0xa6,
            KeyCode::PlayPause => 0xa7,
            KeyCode::MediaNext => 0xa8,
            KeyCode::Mute => 0xa9,
            KeyCode::VolumeDown => 0xaa,
            KeyCode::VolumeUp => 0xab,
            KeyCode::Layer1 => 0xb4,
            KeyCode::Layer2 => 0xb5,
            KeyCode::Layer3 => 0xb6,
            KeyCode::Layer4 => 0xb7,
            KeyCode::Layer5 => 0xb8,
            KeyCode::LayerCycle => 0xb9,
            KeyCode::LEDBrightnessCycle => 0xbb,
            KeyCode::LedModeCycle => 0xbc,
            KeyCode::MouseLeftClick => 0xbe,
            KeyCode::MouseRightClick => 0xbf,
            KeyCode::MouseMiddleClick => 0xc0,
            KeyCode::MouseBackward => 0xc3,
            KeyCode::MouseForward => 0xc4,
            KeyCode::DoNotUseLaunchProgram => 0xf7,
            KeyCode::SetMacro => 0xf8,
            KeyCode::LockUnlockWholeS => 0xfa,
            KeyCode::Leftctrl => 0xfb,
            KeyCode::Leftshift => 0xfc,
            KeyCode::Leftalt => 0xfd,
            KeyCode::Leftmeta => 0xfe,
        }
    }

    #[verifier::when_used_as_spec(spec_value)]
    pub fn value(self) -> (v: u8)
        ensures
            v == self.spec_value(),
    {
        proof {
            reveal(KeyCode::spec_value);
        }
        match self {
            KeyCode::Disable => 0x00,
            KeyCode::ErrOvf => 0x01,
            KeyCode::PostFail => 0x02,
            KeyCode::ErrUndefined => 0x03,
            KeyCode::A => 0x04,
            KeyCode::B => 0x05,
            KeyCode::C => 0x06,
            KeyCode::D => 0x07,
            KeyCode::E => 0x08,
            KeyCode::F => 0x09,
            KeyCode::G => 0x0a,
            KeyCode::H => 0x0b,
            KeyCode::I => 0x0c,
            KeyCode::J => 0x0d,
            KeyCode::K => 0x0e,
            KeyCode::L => 0x0f,
            KeyCode::M => 0x10,
            KeyCode::N => 0x11,
            KeyCode::O => 0x12,
            KeyCode::P => 0x13,
            KeyCode::Q => 0x14,
            KeyCode::R => 0x15,
            KeyCode::S => 0x16,
            KeyCode::T => 0x17,
            KeyCode::U => 0x18,
            KeyCode::V => 0x19,
            KeyCode::W => 0x1a,
            KeyCode::X => 0x1b,
            KeyCode::Y => 0x1c,
            KeyCode::Z => 0x1d,
            KeyCode::One => 0x1e,
            KeyCode::Two => 0x1f,
            KeyCode::Three => 0x20,
            KeyCode::Four => 0x21,
            KeyCode::Five => 0x22,
            KeyCode::Six => 0x23,
            KeyCode::Seven => 0x24,
            KeyCode::Eight => 0x25,
            KeyCode::Nine => 0x26,
            KeyCode::Zero => 0x27,
            KeyCode::Enter => 0x28,
            KeyCode::Esc => 0x29,
            KeyCode::Backspace => 0x2a,
            KeyCode::Tab => 0x2b,
            KeyCode::Space => 0x2c,
            KeyCode::Minus => 0x2d,
            KeyCode::Equal => 0x2e,
            KeyCode::Leftbrace => 0x2f,
            KeyCode::Rightbrace => 0x30,
            KeyCode::Backslash => 0x31,
            KeyCode::Hashtilde => 0x32,
            KeyCode::Semicolon => 0x33,
            KeyCode::Apostrophe => 0x34,
            KeyCode::Grave => 0x35,
            KeyCode::Comma => 0x36,
            KeyCode::Dot => 0x37,
            KeyCode::Slash => 0x38,
            KeyCode::Capslock => 0x39,
            KeyCode::F1 => 0x3a,
            KeyCode::F2 => 0x3b,
            KeyCode::F3 => 0x3c,
            KeyCode::F4 => 0x3d,
            KeyCode::F5 => 0x3e,
            KeyCode::F6 => 0x3f,
            KeyCode::F7 => 0x40,
            KeyCode::F8 => 0x41,
            KeyCode::F9 => 0x42,
            KeyCode::F10 => 0x43,
            KeyCode::F11 => 0x44,
            KeyCode::F12 => 0x45,
            KeyCode::Sysrq => 0x46,
            KeyCode::Scrolllock => 0x47,
            KeyCode::Pause => 0x48,
            KeyCode::Insert => 0x49,
            KeyCode::Home => 0x4a,
            KeyCode::Pageup => 0x4b,
            KeyCode::Delete => 0x4c,
            KeyCode::End => 0x4d,
            KeyCode::Pagedown => 0x4e,
            KeyCode::Right => 0x4f,
            KeyCode::Left => 0x50,
            KeyCode::Down => 0x51,
            KeyCode::Up => 0x52,
            KeyCode::Numlock => 0x53,
            KeyCode::KPSlash => 0x54,
            KeyCode::KPAsterisk => 0x55,
            KeyCode::KPMinus => 0x56,
            KeyCode::KPPlus => 0x57,
            KeyCode::KPEnter => 0x58,
            KeyCode::KP1 => 0x59,
            KeyCode::KP2 => 0x5a,
            KeyCode::KP3 => 0x5b,
            KeyCode::KP4 => 0x5c,
            KeyCode::KP5 => 0x5d,
            KeyCode::KP6 => 0x5e,
            KeyCode::KP7 => 0x5f,
            KeyCode::KP8 => 0x60,
            KeyCode::KP9 => 0x61,
            KeyCode::KP0 => 0x62,
            KeyCode::KPDot => 0x63,
            KeyCode::_102ND => 0x64,
            KeyCode::Compose => 0x65,
            KeyCode::Power => 0x66,
            KeyCode::KPEqual => 0x67,
            KeyCode::F13 => 0x68,
            KeyCode::F14 => 0x69,
            KeyCode::F15 => 0x6a,
            KeyCode::F16 => 0x6b,
            KeyCode::F17 => 0x6c,
            KeyCode::F18 => 0x6d,
            KeyCode::F19 => 0x6e,
            KeyCode::F20 => 0x6f,
            KeyCode::F21 => 0x70,
            KeyCode::F22 => 0x71,
            KeyCode::F23 => 0x72,
            KeyCode::F24 => 0x73,
            KeyCode::Open => 0x74,
            KeyCode::Help => 0x75,
            KeyCode::Props => 0x76,
            KeyCode::Front => 0x77,
            KeyCode::Stop => 0x78,
            KeyCode::Again => 0x79,
            KeyCode::Undo => 0x7a,
            KeyCode::Cut => 0x7b,
            KeyCode::Copy => 0x7c,
            KeyCode::Paste => 0x7d,
            KeyCode::Find => 0x7e,
            KeyCode::_MUTE => 0x7f,
            KeyCode::_VOLUP => 0x80,
            KeyCode::_VOLDN => 0x81,
            KeyCode::_CAPSLOCK => 0x82,
            KeyCode::_NUMLOCK => 0x83,
            KeyCode::_SCROLLLOCK => 0x84,
            KeyCode::_KPCOMMA => 0x85,
            KeyCode::_EQUALS => 0x86,
            KeyCode::_RO => 0x87,
            KeyCode::_KATAKANAHIRAGANA => 0x88,
            KeyCode::_YEN => 0x89,
            KeyCode::_HENKAN => 0x8a,
            KeyCode::_MUHENKAN => 0x8b,
            KeyCode::_KPJPCOMMA => 0x8c,
            KeyCode::_I7 => 0x8d,
            KeyCode::_I8 => 0x8e,
            KeyCode::_I9 => 0x8f,
            KeyCode::_HANGEUL => 0x90,
            KeyCode::_HANJA => 0x91,
            KeyCode::_KATAKANA => 0x92,
            KeyCode::_HIRAGANA => 0x93,
            KeyCode::_ZENKAKUHANKAKU => 0x94,
            KeyCode::_L6 => 0x95,
            KeyCode::_L7 => 0x96,
            KeyCode::_L8 => 0x97,
            KeyCode::_L9 => 0x98,
            KeyCode::_AE => 0x99,
            KeyCode::_SYSREQ => 0x9a,
            KeyCode::_CANCEL => 0x9b,
            KeyCode::_CLEAR => 0x9c,
            KeyCode::_PRIOR => 0x9d,
            KeyCode::_RETURN => 0x9e,
            KeyCode::_SEPARATOR => 0x9f,
            KeyCode::_OUT => 0xa0,
            KeyCode::_OPER => 0xa1,
            KeyCode::_CLEARAGAIN => 0xa2,
            KeyCode::_CRSEL => 0xa3,
            KeyCode::MediaLaunch => 0xa4,
            KeyCode::MediaStop => 0xa5,
            KeyCode::MediaPrevious => 0xa6,
            KeyCode::PlayPause => 0xa7,
            KeyCode::MediaNext => 0xa8,
            KeyCode::Mute => 0xa9,
            KeyCode::VolumeDown => 0xaa,
            KeyCode::VolumeUp => 0xab,
            KeyCode::Layer1 => 0xb4,
            KeyCode::Layer2 => 0xb5,
            KeyCode::Layer3 => 0xb6,
            KeyCode::Layer4 => 0xb7,
            KeyCode::Layer5 => 0xb8,
            KeyCode::LayerCycle => 0xb9,
            KeyCode::LEDBrightnessCycle => 0xbb,
            KeyCode::LedModeCycle => 0xbc,
            KeyCode::MouseLeftClick => 0xbe,
            KeyCode::MouseRightClick => 0xbf,
            KeyCode::MouseMiddleClick => 0xc0,
            KeyCode::MouseBackward => 0xc3,
            KeyCode::MouseForward => 0xc4,
            KeyCode::DoNotUseLaunchProgram => 0xf7,
            KeyCode::SetMacro => 0xf8,
            KeyCode::LockUnlockWholeS => 0xfa,
            KeyCode::Leftctrl => 0xfb,
            KeyCode::Leftshift => 0xfc,
            KeyCode::Leftalt => 0xfd,
            KeyCode::Leftmeta => 0xfe,
        }
    }

    /// The key code with the given on-wire value, if there is one.
    ///
    /// Opaque for the same reason as [`KeyCode::spec_value`].
    #[verifier::opaque]
    pub open spec fn spec_from_u8(v: u8) -> Option<KeyCode> {
        if v == 0x00 {
            Some(KeyCode::Disable)
        } else if v == 0x01 {
            Some(KeyCode::ErrOvf)
        } else if v == 0x02 {
            Some(KeyCode::PostFail)
        } else if v == 0x03 {
            Some(KeyCode::ErrUndefined)
        } else if v == 0x04 {
            Some(KeyCode::A)
        } else if v == 0x05 {
            Some(KeyCode::B)
        } else if v == 0x06 {
            Some(KeyCode::C)
        } else if v == 0x07 {
            Some(KeyCode::D)
        } else if v == 0x08 {
            Some(KeyCode::E)
        } else if v == 0x09 {
            Some(KeyCode::F)
        } else if v == 0x0a {
            Some(KeyCode::G)
        } else if v == 0x0b {
            Some(KeyCode::H)
        } else if v == 0x0c {
            Some(KeyCode::I)
        } else if v == 0x0d {
            Some(KeyCode::J)
        } else if v == 0x0e {
            Some(KeyCode::K)
        } else if v == 0x0f {
            Some(KeyCode::L)
        } else if v == 0x10 {
            Some(KeyCode::M)
        } else if v == 0x11 {
            Some(KeyCode::N)
        } else if v == 0x12 {
            Some(KeyCode::O)
        } else if v == 0x13 {
            Some(KeyCode::P)
        } else if v == 0x14 {
            Some(KeyCode::Q)
        } else if v == 0x15 {
            Some(KeyCode::R)
        } else if v == 0x16 {
            Some(KeyCode::S)
        } else if v == 0x17 {
            Some(KeyCode::T)
        } else if v == 0x18 {
            Some(KeyCode::U)
        } else if v == 0x19 {
            Some(KeyCode::V)
        } else if v == 0x1a {
            Some(KeyCode::W)
        } else if v == 0x1b {
            Some(KeyCode::X)
        } else if v == 0x1c {
            Some(KeyCode::Y)
        } else if v == 0x1d {
            Some(KeyCode::Z)
        } else if v == 0x1e {
            Some(KeyCode::One)
        } else if v == 0x1f {
            Some(KeyCode::Two)
        } else if v == 0x20 {
            Some(KeyCode::Three)
        } else if v == 0x21 {
            Some(KeyCode::Four)
        } else if v == 0x22 {
            Some(KeyCode::Five)
        } else if v == 0x23 {
            Some(KeyCode::Six)
        } else if v == 0x24 {
            Some(KeyCode::Seven)
        } else if v == 0x25 {
            Some(KeyCode::Eight)
        } else if v == 0x26 {
            Some(KeyCode::Nine)
        } else if v == 0x27 {
            Some(KeyCode::Zero)
        } else if v == 0x28 {
            Some(KeyCode::Enter)
        } else if v == 0x29 {
            Some(KeyCode::Esc)
        } else if v == 0x2a {
            Some(KeyCode::Backspace)
        } else if v == 0x2b {
            Some(KeyCode::Tab)
        } else if v == 0x2c {
            Some(KeyCode::Space)
        } else if v == 0x2d {
            Some(KeyCode::Minus)
        } else if v == 0x2e {
            Some(KeyCode::Equal)
        } else if v == 0x2f {
            Some(KeyCode::Leftbrace)
        } else if v == 0x30 {
            Some(KeyCode::Rightbrace)
        } else if v == 0x31 {
            Some(KeyCode::Backslash)
        } else if v == 0x32 {
            Some(KeyCode::Hashtilde)
        } else if v == 0x33 {
            Some(KeyCode::Semicolon)
        } else if v == 0x34 {
            Some(KeyCode::Apostrophe)
        } else if v == 0x35 {
            Some(KeyCode::Grave)
        } else if v == 0x36 {
            Some(KeyCode::Comma)
        } else if v == 0x37 {
            Some(KeyCode::Dot)
        } else if v == 0x38 {
            Some(KeyCode::Slash)
        } else if v == 0x39 {
            Some(KeyCode::Capslock)
        } else if v == 0x3a {
            Some(KeyCode::F1)
        } else if v == 0x3b {
            Some(KeyCode::F2)
        } else if v == 0x3c {
            Some(KeyCode::F3)
        } else if v == 0x3d {
            Some(KeyCode::F4)
        } else if v == 0x3e {
            Some(KeyCode::F5)
        } else if v == 0x3f {
            Some(KeyCode::F6)
        } else if v == 0x40 {
            Some(KeyCode::F7)
        } else if v == 0x41 {
            Some(KeyCode::F8)
        } else if v == 0x42 {
            Some(KeyCode::F9)
        } else if v == 0x43 {
            Some(KeyCode::F10)
        } else if v == 0x44 {
            Some(KeyCode::F11)
        } else if v == 0x45 {
            Some(KeyCode::F12)
        } else if v == 0x46 {
            Some(KeyCode::Sysrq)
        } else if v == 0x47 {
            Some(KeyCode::Scrolllock)
        } else if v == 0x48 {
            Some(KeyCode::Pause)
        } else if v == 0x49 {
            Some(KeyCode::Insert)
        } else if v == 0x4a {
            Some(KeyCode::Home)
        } else if v == 0x4b {
            Some(KeyCode::Pageup)
        } else if v == 0x4c {
            Some(KeyCode::Delete)
        } else if v == 0x4d {
            Some(KeyCode::End)
        } else if v == 0x4e {
            Some(KeyCode::Pagedown)
        } else if v == 0x4f {
            Some(KeyCode::Right)
        } else if v == 0x50 {
            Some(KeyCode::Left)
        } else if v == 0x51 {
            Some(KeyCode::Down)
        } else if v == 0x52 {
            Some(KeyCode::Up)
        } else if v == 0x53 {
            Some(KeyCode::Numlock)
        } else if v == 0x54 {
            Some(KeyCode::KPSlash)
        } else if v == 0x55 {
            Some(KeyCode::KPAsterisk)
        } else if v == 0x56 {
            Some(KeyCode::KPMinus)
        } else if v == 0x57 {
            Some(KeyCode::KPPlus)
        } else if v == 0x58 {
            Some(KeyCode::KPEnter)
        } else if v == 0x59 {
            Some(KeyCode::KP1)
        } else if v == 0x5a {
            Some(KeyCode::KP2)
        } else if v == 0x5b {
            Some(KeyCode::KP3)
        } else if v == 0x5c {
            Some(KeyCode::KP4)
        } else if v == 0x5d {
            Some(KeyCode::KP5)
        } else if v == 0x5e {
            Some(KeyCode::KP6)
        } else if v == 0x5f {
            Some(KeyCode::KP7)
        } else if v == 0x60 {
            Some(KeyCode::KP8)
        } else if v == 0x61 {
            Some(KeyCode::KP9)
        } else if v == 0x62 {
            Some(KeyCode::KP0)
        } else if v == 0x63 {
            Some(KeyCode::KPDot)
        } else if v == 0x64 {
            Some(KeyCode::_102ND)
        } else if v == 0x65 {
            Some(KeyCode::Compose)
        } else if v == 0x66 {
            Some(KeyCode::Power)
        } else if v == 0x67 {
            Some(KeyCode::KPEqual)
        } else if v == 0x68 {
            Some(KeyCode::F13)
        } else if v == 0x69 {
            Some(KeyCode::F14)
        } else if v == 0x6a {
            Some(KeyCode::F15)
        } else if v == 0x6b {
            Some(KeyCode::F16)
        } else if v == 0x6c {
            Some(KeyCode::F17)
        } else if v == 0x6d {
            Some(KeyCode::F18)
        } else if v == 0x6e {
            Some(KeyCode::F19)
        } else if v == 0x6f {
            Some(KeyCode::F20)
        } else if v == 0x70 {
            Some(KeyCode::F21)
        } else if v == 0x71 {
            Some(KeyCode::F22)
        } else if v == 0x72 {
            Some(KeyCode::F23)
        } else if v == 0x73 {
            Some(KeyCode::F24)
        } else if v == 0x74 {
            Some(KeyCode::Open)
        } else if v == 0x75 {
            Some(KeyCode::Help)
        } else if v == 0x76 {
            Some(KeyCode::Props)
        } else if v == 0x77 {
            Some(KeyCode::Front)
        } else if v == 0x78 {
            Some(KeyCode::Stop)
        } else if v == 0x79 {
            Some(KeyCode::Again)
        } else if v == 0x7a {
            Some(KeyCode::Undo)
        } else if v == 0x7b {
            Some(KeyCode::Cut)
        } else if v == 0x7c {
            Some(KeyCode::Copy)
        } else if v == 0x7d {
            Some(KeyCode::Paste)
        } else if v == 0x7e {
            Some(KeyCode::Find)
        } else if v == 0x7f {
            Some(KeyCode::_MUTE)
        } else if v == 0x80 {
            Some(KeyCode::_VOLUP)
        } else if v == 0x81 {
            Some(KeyCode::_VOLDN)
        } else if v == 0x82 {
            Some(KeyCode::_CAPSLOCK)
        } else if v == 0x83 {
            Some(KeyCode::_NUMLOCK)
        } else if v == 0x84 {
            Some(KeyCode::_SCROLLLOCK)
        } else if v == 0x85 {
            Some(KeyCode::_KPCOMMA)
        } else if v == 0x86 {
            Some(KeyCode::_EQUALS)
        } else if v == 0x87 {
            Some(KeyCode::_RO)
        } else if v == 0x88 {
            Some(KeyCode::_KATAKANAHIRAGANA)
        } else if v == 0x89 {
            Some(KeyCode::_YEN)
        } else if v == 0x8a {
            Some(KeyCode::_HENKAN)
        } else if v == 0x8b {
            Some(KeyCode::_MUHENKAN)
        } else if v == 0x8c {
            Some(KeyCode::_KPJPCOMMA)
        } else if v == 0x8d {
            Some(KeyCode::_I7)
        } else if v == 0x8e {
            Some(KeyCode::_I8)
        } else if v == 0x8f {
            Some(KeyCode::_I9)
        } else if v == 0x90 {
            Some(KeyCode::_HANGEUL)
        } else if v == 0x91 {
            Some(KeyCode::_HANJA)
        } else if v == 0x92 {
            Some(KeyCode::_KATAKANA)
        } else if v == 0x93 {
            Some(KeyCode::_HIRAGANA)
        } else if v == 0x94 {
            Some(KeyCode::_ZENKAKUHANKAKU)
        } else if v == 0x95 {
            Some(KeyCode::_L6)
        } else if v == 0x96 {
            Some(KeyCode::_L7)
        } else if v == 0x97 {
            Some(KeyCode::_L8)
        } else if v == 0x98 {
            Some(KeyCode::_L9)
        } else if v == 0x99 {
            Some(KeyCode::_AE)
        } else if v == 0x9a {
            Some(KeyCode::_SYSREQ)
        } else if v == 0x9b {
            Some(KeyCode::_CANCEL)
        } else if v == 0x9c {
            Some(KeyCode::_CLEAR)
        } else if v == 0x9d {
            Some(KeyCode::_PRIOR)
        } else if v == 0x9e {
            Some(KeyCode::_RETURN)
        } else if v == 0x9f {
            Some(KeyCode::_SEPARATOR)
        } else if v == 0xa0 {
            Some(KeyCode::_OUT)
        } else if v == 0xa1 {
            Some(KeyCode::_OPER)
        } else if v == 0xa2 {
            Some(KeyCode::_CLEARAGAIN)
        } else if v == 0xa3 {
            Some(KeyCode::_CRSEL)
        } else if v == 0xa4 {
            Some(KeyCode::MediaLaunch)
        } else if v == 0xa5 {
            Some(KeyCode::MediaStop)
        } else if v == 0xa6 {
            Some(KeyCode::MediaPrevious)
        } else if v == 0xa7 {
            Some(KeyCode::PlayPause)
        } else if v == 0xa8 {
            Some(KeyCode::MediaNext)
        } else if v == 0xa9 {
            Some(KeyCode::Mute)
        } else if v == 0xaa {
            Some(KeyCode::VolumeDown)
        } else if v == 0xab {
            Some(KeyCode::VolumeUp)
        } else if v == 0xb4 {
            Some(KeyCode::Layer1)
        } else if v == 0xb5 {
            Some(KeyCode::Layer2)
        } else if v == 0xb6 {
            Some(KeyCode::Layer3)
        } else if v == 0xb7 {
            Some(KeyCode::Layer4)
        } else if v == 0xb8 {
            Some(KeyCode::Layer5)
        } else if v == 0xb9 {
            Some(KeyCode::LayerCycle)
        } else if v == 0xbb {
            Some(KeyCode::LEDBrightnessCycle)
        } else if v == 0xbc {
            Some(KeyCode::LedModeCycle)
        } else if v == 0xbe {
            Some(KeyCode::MouseLeftClick)
        } else if v == 0xbf {
            Some(KeyCode::MouseRightClick)
        } else if v == 0xc0 {
            Some(KeyCode::MouseMiddleClick)
        } else if v == 0xc3 {
            Some(KeyCode::MouseBackward)
        } else if v == 0xc4 {
            Some(KeyCode::MouseForward)
        } else if v == 0xf7 {
            Some(KeyCode::DoNotUseLaunchProgram)
        } else if v == 0xf8 {
            Some(KeyCode::SetMacro)
        } else if v == 0xfa {
            Some(KeyCode::LockUnlockWholeS)
        } else if v == 0xfb {
            Some(KeyCode::Leftctrl)
        } else if v == 0xfc {
            Some(KeyCode::Leftshift)
        } else if v == 0xfd {
            Some(KeyCode::Leftalt)
        } else if v == 0xfe {
            Some(KeyCode::Leftmeta)
        } else {
            None
        }
    }

    #[verifier::when_used_as_spec(spec_from_u8)]
    pub fn from_u8(v: u8) -> (k: Option<KeyCode>)
        ensures
            k == KeyCode::spec_from_u8(v),
    {
        proof {
            reveal(KeyCode::spec_from_u8);
        }
        if v == 0x00 {
            Some(KeyCode::Disable)
        } else if v == 0x01 {
            Some(KeyCode::ErrOvf)
        } else if v == 0x02 {
            Some(KeyCode::PostFail)
        } else if v == 0x03 {
            Some(KeyCode::ErrUndefined)
        } else if v == 0x04 {
            Some(KeyCode::A)
        } else if v == 0x05 {
            Some(KeyCode::B)
        } else if v == 0x06 {
            Some(KeyCode::C)
        } else if v == 0x07 {
            Some(KeyCode::D)
        } else if v == 0x08 {
            Some(KeyCode::E)
        } else if v == 0x09 {
            Some(KeyCode::F)
        } else if v == 0x0a {
            Some(KeyCode::G)
        } else if v == 0x0b {
            Some(KeyCode::H)
        } else if v == 0x0c {
            Some(KeyCode::I)
        } else if v == 0x0d {
            Some(KeyCode::J)
        } else if v == 0x0e {
            Some(KeyCode::K)
        } else if v == 0x0f {
            Some(KeyCode::L)
        } else if v == 0x10 {
            Some(KeyCode::M)
        } else if v == 0x11 {
            Some(KeyCode::N)
        } else if v == 0x12 {
            Some(KeyCode::O)
        } else if v == 0x13 {
            Some(KeyCode::P)
        } else if v == 0x14 {
            Some(KeyCode::Q)
        } else if v == 0x15 {
            Some(KeyCode::R)
        } else if v == 0x16 {
            Some(KeyCode::S)
        } else if v == 0x17 {
            Some(KeyCode::T)
        } else if v == 0x18 {
            Some(KeyCode::U)
        } else if v == 0x19 {
            Some(KeyCode::V)
        } else if v == 0x1a {
            Some(KeyCode::W)
        } else if v == 0x1b {
            Some(KeyCode::X)
        } else if v == 0x1c {
            Some(KeyCode::Y)
        } else if v == 0x1d {
            Some(KeyCode::Z)
        } else if v == 0x1e {
            Some(KeyCode::One)
        } else if v == 0x1f {
            Some(KeyCode::Two)
        } else if v == 0x20 {
            Some(KeyCode::Three)
        } else if v == 0x21 {
            Some(KeyCode::Four)
        } else if v == 0x22 {
            Some(KeyCode::Five)
        } else if v == 0x23 {
            Some(KeyCode::Six)
        } else if v == 0x24 {
            Some(KeyCode::Seven)
        } else if v == 0x25 {
            Some(KeyCode::Eight)
        } else if v == 0x26 {
            Some(KeyCode::Nine)
        } else if v == 0x27 {
            Some(KeyCode::Zero)
        } else if v == 0x28 {
            Some(KeyCode::Enter)
        } else if v == 0x29 {
            Some(KeyCode::Esc)
        } else if v == 0x2a {
            Some(KeyCode::Backspace)
        } else if v == 0x2b {
            Some(KeyCode::Tab)
        } else if v == 0x2c {
            Some(KeyCode::Space)
        } else if v == 0x2d {
            Some(KeyCode::Minus)
        } else if v == 0x2e {
            Some(KeyCode::Equal)
        } else if v == 0x2f {
            Some(KeyCode::Leftbrace)
        } else if v == 0x30 {
            Some(KeyCode::Rightbrace)
        } else if v == 0x31 {
            Some(KeyCode::Backslash)
        } else if v == 0x32 {
            Some(KeyCode::Hashtilde)
        } else if v == 0x33 {
            Some(KeyCode::Semicolon)
        } else if v == 0x34 {
            Some(KeyCode::Apostrophe)
        } else if v == 0x35 {
            Some(KeyCode::Grave)
        } else if v == 0x36 {
            Some(KeyCode::Comma)
        } else if v == 0x37 {
            Some(KeyCode::Dot)
        } else if v == 0x38 {
            Some(KeyCode::Slash)
        } else if v == 0x39 {
            Some(KeyCode::Capslock)
        } else if v == 0x3a {
            Some(KeyCode::F1)
        } else if v == 0x3b {
            Some(KeyCode::F2)
        } else if v == 0x3c {
            Some(KeyCode::F3)
        } else if v == 0x3d {
            Some(KeyCode::F4)
        } else if v == 0x3e {
            Some(KeyCode::F5)
        } else if v == 0x3f {
            Some(KeyCode::F6)
        } else if v == 0x40 {
            Some(KeyCode::F7)
        } else if v == 0x41 {
            Some(KeyCode::F8)
        } else if v == 0x42 {
            Some(KeyCode::F9)
        } else if v == 0x43 {
            Some(KeyCode::F10)
        } else if v == 0x44 {
            Some(KeyCode::F11)
        } else if v == 0x45 {
            Some(KeyCode::F12)
        } else if v == 0x46 {
            Some(KeyCode::Sysrq)
        } else if v == 0x47 {
            Some(KeyCode::Scrolllock)
        } else if v == 0x48 {
            Some(KeyCode::Pause)
        } else if v == 0x49 {
            Some(KeyCode::Insert)
        } else if v == 0x4a {
            Some(KeyCode::Home)
        } else if v == 0x4b {
            Some(KeyCode::Pageup)
        } else if v == 0x4c {
            Some(KeyCode::Delete)
        } else if v == 0x4d {
            Some(KeyCode::End)
        } else if v == 0x4e {
            Some(KeyCode::Pagedown)
        } else if v == 0x4f {
            Some(KeyCode::Right)
        } else if v == 0x50 {
            Some(KeyCode::Left)
        } else if v == 0x51 {
            Some(KeyCode::Down)
        } else if v == 0x52 {
            Some(KeyCode::Up)
        } else if v == 0x53 {
            Some(KeyCode::Numlock)
        } else if v == 0x54 {
            Some(KeyCode::KPSlash)
        } else if v == 0x55 {
            Some(KeyCode::KPAsterisk)
        } else if v == 0x56 {
            Some(KeyCode::KPMinus)
        } else if v == 0x57 {
            Some(KeyCode::KPPlus)
        } else if v == 0x58 {
            Some(KeyCode::KPEnter)
        } else if v == 0x59 {
            Some(KeyCode::KP1)
        } else if v == 0x5a {
            Some(KeyCode::KP2)
        } else if v == 0x5b {
            Some(KeyCode::KP3)
        } else if v == 0x5c {
            Some(KeyCode::KP4)
        } else if v == 0x5d {
            Some(KeyCode::KP5)
        } else if v == 0x5e {
            Some(KeyCode::KP6)
        } else if v == 0x5f {
            Some(KeyCode::KP7)
        } else if v == 0x60 {
            Some(KeyCode::KP8)
        } else if v == 0x61 {
            Some(KeyCode::KP9)
        } else if v == 0x62 {
            Some(KeyCode::KP0)
        } else if v == 0x63 {
            Some(KeyCode::KPDot)
        } else if v == 0x64 {
            Some(KeyCode::_102ND)
        } else if v == 0x65 {
            Some(KeyCode::Compose)
        } else if v == 0x66 {
            Some(KeyCode::Power)
        } else if v == 0x67 {
            Some(KeyCode::KPEqual)
        } else if v == 0x68 {
            Some(KeyCode::F13)
        } else if v == 0x69 {
            Some(KeyCode::F14)
        } else if v == 0x6a {
            Some(KeyCode::F15)
        } else if v == 0x6b {
            Some(KeyCode::F16)
        } else if v == 0x6c {
            Some(KeyCode::F17)
        } else if v == 0x6d {
            Some(KeyCode::F18)
        } else if v == 0x6e {
            Some(KeyCode::F19)
        } else if v == 0x6f {
            Some(KeyCode::F20)
        } else if v == 0x70 {
            Some(KeyCode::F21)
        } else if v == 0x71 {
            Some(KeyCode::F22)
        } else if v == 0x72 {
            Some(KeyCode::F23)
        } else if v == 0x73 {
            Some(KeyCode::F24)
        } else if v == 0x74 {
            Some(KeyCode::Open)
        } else if v == 0x75 {
            Some(KeyCode::Help)
        } else if v == 0x76 {
            Some(KeyCode::Props)
        } else if v == 0x77 {
            Some(KeyCode::Front)
        } else if v == 0x78 {
            Some(KeyCode::Stop)
        } else if v == 0x79 {
            Some(KeyCode::Again)
        } else if v == 0x7a {
            Some(KeyCode::Undo)
        } else if v == 0x7b {
            Some(KeyCode::Cut)
        } else if v == 0x7c {
            Some(KeyCode::Copy)
        } else if v == 0x7d {
            Some(KeyCode::Paste)
        } else if v == 0x7e {
            Some(KeyCode::Find)
        } else if v == 0x7f {
            Some(KeyCode::_MUTE)
        } else if v == 0x80 {
            Some(KeyCode::_VOLUP)
        } else if v == 0x81 {
            Some(KeyCode::_VOLDN)
        } else if v == 0x82 {
            Some(KeyCode::_CAPSLOCK)
        } else if v == 0x83 {
            Some(KeyCode::_NUMLOCK)
        } else if v == 0x84 {
            Some(KeyCode::_SCROLLLOCK)
        } else if v == 0x85 {
            Some(KeyCode::_KPCOMMA)
        } else if v == 0x86 {
            Some(KeyCode::_EQUALS)
        } else if v == 0x87 {
            Some(KeyCode::_RO)
        } else if v == 0x88 {
            Some(KeyCode::_KATAKANAHIRAGANA)
        } else if v == 0x89 {
            Some(KeyCode::_YEN)
        } else if v == 0x8a {
            Some(KeyCode::_HENKAN)
        } else if v == 0x8b {
            Some(KeyCode::_MUHENKAN)
        } else if v == 0x8c {
            Some(KeyCode::_KPJPCOMMA)
        } else if v == 0x8d {
            Some(KeyCode::_I7)
        } else if v == 0x8e {
            Some(KeyCode::_I8)
        } else if v == 0x8f {
            Some(KeyCode::_I9)
        } else if v == 0x90 {
            Some(KeyCode::_HANGEUL)
        } else if v == 0x91 {
            Some(KeyCode::_HANJA)
        } else if v == 0x92 {
            Some(KeyCode::_KATAKANA)
        } else if v == 0x93 {
            Some(KeyCode::_HIRAGANA)
        } else if v == 0x94 {
            Some(KeyCode::_ZENKAKUHANKAKU)
        } else if v == 0x95 {
            Some(KeyCode::_L6)
        } else if v == 0x96 {
            Some(KeyCode::_L7)
        } else if v == 0x97 {
            Some(KeyCode::_L8)
        } else if v == 0x98 {
            Some(KeyCode::_L9)
        } else if v == 0x99 {
            Some(KeyCode::_AE)
        } else if v == 0x9a {
            Some(KeyCode::_SYSREQ)
        } else if v == 0x9b {
            Some(KeyCode::_CANCEL)
        } else if v == 0x9c {
            Some(KeyCode::_CLEAR)
        } else if v == 0x9d {
            Some(KeyCode::_PRIOR)
        } else if v == 0x9e {
            Some(KeyCode::_RETURN)
        } else if v == 0x9f {
            Some(KeyCode::_SEPARATOR)
        } else if v == 0xa0 {
            Some(KeyCode::_OUT)
        } else if v == 0xa1 {
            Some(KeyCode::_OPER)
        } else if v == 0xa2 {
            Some(KeyCode::_CLEARAGAIN)
        } else if v == 0xa3 {
            Some(KeyCode::_CRSEL)
        } else if v == 0xa4 {
            Some(KeyCode::MediaLaunch)
        } else if v == 0xa5 {
            Some(KeyCode::MediaStop)
        } else if v == 0xa6 {
            Some(KeyCode::MediaPrevious)
        } else if v == 0xa7 {
            Some(KeyCode::PlayPause)
        } else if v == 0xa8 {
            Some(KeyCode::MediaNext)
        } else if v == 0xa9 {
            Some(KeyCode::Mute)
        } else if v == 0xaa {
            Some(KeyCode::VolumeDown)
        } else if v == 0xab {
            Some(KeyCode::VolumeUp)
        } else if v == 0xb4 {
            Some(KeyCode::Layer1)
        } else if v == 0xb5 {
            Some(KeyCode::Layer2)
        } else if v == 0xb6 {
            Some(KeyCode::Layer3)
        } else if v == 0xb7 {
            Some(KeyCode::Layer4)
        } else if v == 0xb8 {
            Some(KeyCode::Layer5)
        } else if v == 0xb9 {
            Some(KeyCode::LayerCycle)
        } else if v == 0xbb {
            Some(KeyCode::LEDBrightnessCycle)
        } else if v == 0xbc {
            Some(KeyCode::LedModeCycle)
        } else if v == 0xbe {
            Some(KeyCode::MouseLeftClick)
        } else if v == 0xbf {
            Some(KeyCode::MouseRightClick)
        } else if v == 0xc0 {
            Some(KeyCode::MouseMiddleClick)
        } else if v == 0xc3 {
            Some(KeyCode::MouseBackward)
        } else if v == 0xc4 {
            Some(KeyCode::MouseForward)
        } else if v == 0xf7 {
            Some(KeyCode::DoNotUseLaunchProgram)
        } else if v == 0xf8 {
            Some(KeyCode::SetMacro)
        } else if v == 0xfa {
            Some(KeyCode::LockUnlockWholeS)
        } else if v == 0xfb {
            Some(KeyCode::Leftctrl)
        } else if v == 0xfc {
            Some(KeyCode::Leftshift)
        } else if v == 0xfd {
            Some(KeyCode::Leftalt)
        } else if v == 0xfe {
            Some(KeyCode::Leftmeta)
        } else {
            None
        }
    }
}

/// Decoding an encoded key code restores the key code: distinct key
/// codes keep distinct on-wire values.
#[verifier::rlimit(60)]
pub proof fn lemma_keycode_code_injective(k: KeyCode)
    ensures
        KeyCode::spec_from_u8(k.spec_value()) == Some(k),
{
    reveal(KeyCode::spec_value);
    reveal(KeyCode::spec_from_u8);
}

/// A byte that decodes to a key code is that key code's value: the
/// decoder accepts nothing the encoder cannot produce.
#[verifier::rlimit(60)]
pub proof fn lemma_keycode_decode_value(v: u8)
    ensures
        KeyCode::spec_from_u8(v) is Some ==> (KeyCode::spec_from_u8(v)->0).spec_value() == v,
{
    reveal(KeyCode::spec_value);
    reveal(KeyCode::spec_from_u8);
}

} // verus!
