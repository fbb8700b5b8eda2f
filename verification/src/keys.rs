//! The logical buttons: keyboard keys and mouse buttons, each with a dense
//! index into the button tables.

use vstd::prelude::*;

verus! {

/// Number of [`Key`] variants, and so the length of the key table.
pub const KEY_COUNT: usize = 198;

/// Number of [`MouseBtn`] variants, and so the length of the mouse button table.
pub const MOUSE_BTN_COUNT: usize = 5;

/// Keyboard keys by physical position, followed by four synthetic modifier
/// keys that stand for either side: `Shift`, `Ctrl`, `Alt` and `Logo` (the
/// Windows or Command key).
#[derive(Clone, Copy, PartialEq, Eq, Structural, Debug)]
pub enum Key {
    Backquote,
    Backslash,
    BracketLeft,
    BracketRight,
    Comma,
    Digit0,
    Digit1,
    Digit2,
    Digit3,
    Digit4,
    Digit5,
    Digit6,
    Digit7,
    Digit8,
    Digit9,
    Equal,
    IntlBackslash,
    IntlRo,
    IntlYen,
    A,
    B,
    C,
    D,
    E,
    F,
    G,
    H,
    I,
    J,
    K,
    L,
    M,
    N,
    O,
    P,
    Q,
    R,
    S,
    T,
    U,
    V,
    W,
    X,
    Y,
    Z,
    Minus,
    Period,
    Quote,
    Semicolon,
    Slash,
    AltLeft,
    AltRight,
    Backspace,
    CapsLock,
    ContextMenu,
    ControlLeft,
    ControlRight,
    Enter,
    SuperLeft,
    SuperRight,
    ShiftLeft,
    ShiftRight,
    Space,
    Tab,
    Convert,
    KanaMode,
    Lang1,
    Lang2,
    Lang3,
    Lang4,
    Lang5,
    NonConvert,
    Delete,
    End,
    Help,
    Home,
    Insert,
    PageDown,
    PageUp,
    ArrowDown,
    ArrowLeft,
    ArrowRight,
    ArrowUp,
    NumLock,
    Numpad0,
    Numpad1,
    Numpad2,
    Numpad3,
    Numpad4,
    Numpad5,
    Numpad6,
    Numpad7,
    Numpad8,
    Numpad9,
    NumpadAdd,
    NumpadBackspace,
    NumpadClear,
    NumpadClearEntry,
    NumpadComma,
    NumpadDecimal,
    NumpadDivide,
    NumpadEnter,
    NumpadEqual,
    NumpadHash,
    NumpadMemoryAdd,
    NumpadMemoryClear,
    NumpadMemoryRecall,
    NumpadMemoryStore,
    NumpadMemorySubtract,
    NumpadMultiply,
    NumpadParenLeft,
    NumpadParenRight,
    NumpadStar,
    NumpadSubtract,
    Escape,
    Fn,
    FnLock,
    PrintScreen,
    ScrollLock,
    Pause,
    BrowserBack,
    BrowserFavorites,
    BrowserForward,
    BrowserHome,
    BrowserRefresh,
    BrowserSearch,
    BrowserStop,
    Eject,
    LaunchApp1,
    LaunchApp2,
    LaunchMail,
    MediaPlayPause,
    MediaSelect,
    MediaStop,
    MediaTrackNext,
    MediaTrackPrevious,
    Power,
    Sleep,
    AudioVolumeDown,
    AudioVolumeMute,
    AudioVolumeUp,
    WakeUp,
    Meta,
    Hyper,
    Turbo,
    Abort,
    Resume,
    Suspend,
    Again,
    Copy,
    Cut,
    Find,
    Open,
    Paste,
    Props,
    Select,
    Undo,
    Hiragana,
    Katakana,
    F1,
    F2,
    F3,
    F4,
    F5,
    F6,
    F7,
    F8,
    F9,
    F10,
    F11,
    F12,
    F13,
    F14,
    F15,
    F16,
    F17,
    F18,
    F19,
    F20,
    F21,
    F22,
    F23,
    F24,
    F25,
    F26,
    F27,
    F28,
    F29,
    F30,
    F31,
    F32,
    F33,
    F34,
    F35,
    // Synthetic modifiers: not physical keys, driven by the modifier levels.
    Shift,
    Ctrl,
    Alt,
    Logo,
}

/// Mouse buttons.
#[derive(Clone, Copy, PartialEq, Eq, Structural, Debug)]
pub enum MouseBtn {
    Left,
    Right,
    Middle,
    Back,
    Forward,
}

impl Key {
    /// Number of variants.
    pub const COUNT: usize = KEY_COUNT;

    /// Position of the key in declaration order, starting at zero.
    pub open spec fn spec_index(self) -> nat {
        match self {
            Key::Backquote => 0,
            Key::Backslash => 1,
            Key::BracketLeft => 2,
            Key::BracketRight => 3,
            Key::Comma => 4,
            Key::Digit0 => 5,
            Key::Digit1 => 6,
            Key::Digit2 => 7,
            Key::Digit3 => 8,
            Key::Digit4 => 9,
            Key::Digit5 => 10,
            Key::Digit6 => 11,
            Key::Digit7 => 12,
            Key::Digit8 => 13,
            Key::Digit9 => 14,
            Key::Equal => 15,
            Key::IntlBackslash => 16,
            Key::IntlRo => 17,
            Key::IntlYen => 18,
            Key::A => 19,
            Key::B => 20,
            Key::C => 21,
            Key::D => 22,
            Key::E => 23,
            Key::F => 24,
            Key::G => 25,
            Key::H => 26,
            Key::I => 27,
            Key::J => 28,
            Key::K => 29,
            Key::L => 30,
            Key::M => 31,
            Key::N => 32,
            Key::O => 33,
            Key::P => 34,
            Key::Q => 35,
            Key::R => 36,
            Key::S => 37,
            Key::T => 38,
            Key::U => 39,
            Key::V => 40,
            Key::W => 41,
            Key::X => 42,
            Key::Y => 43,
            Key::Z => 44,
            Key::Minus => 45,
            Key::Period => 46,
            Key::Quote => 47,
            Key::Semicolon => 48,
            Key::Slash => 49,
            Key::AltLeft => 50,
            Key::AltRight => 51,
            Key::Backspace => 52,
            Key::CapsLock => 53,
            Key::ContextMenu => 54,
            Key::ControlLeft => 55,
            Key::ControlRight => 56,
            Key::Enter => 57,
            Key::SuperLeft => 58,
            Key::SuperRight => 59,
            Key::ShiftLeft => 60,
            Key::ShiftRight => 61,
            Key::Space => 62,
            Key::Tab => 63,
            Key::Convert => 64,
            Key::KanaMode => 65,
            Key::Lang1 => 66,
            Key::Lang2 => 67,
            Key::Lang3 => 68,
            Key::Lang4 => 69,
            Key::Lang5 => 70,
            Key::NonConvert => 71,
            Key::Delete => 72,
            Key::End => 73,
            Key::Help => 74,
            Key::Home => 75,
            Key::Insert => 76,
            Key::PageDown => 77,
            Key::PageUp => 78,
            Key::ArrowDown => 79,
            Key::ArrowLeft => 80,
            Key::ArrowRight => 81,
            Key::ArrowUp => 82,
            Key::NumLock => 83,
            Key::Numpad0 => 84,
            Key::Numpad1 => 85,
            Key::Numpad2 => 86,
            Key::Numpad3 => 87,
            Key::Numpad4 => 88,
            Key::Numpad5 => 89,
            Key::Numpad6 => 90,
            Key::Numpad7 => 91,
            Key::Numpad8 => 92,
            Key::Numpad9 => 93,
            Key::NumpadAdd => 94,
            Key::NumpadBackspace => 95,
            Key::NumpadClear => 96,
            Key::NumpadClearEntry => 97,
            Key::NumpadComma => 98,
            Key::NumpadDecimal => 99,
            Key::NumpadDivide => 100,
            Key::NumpadEnter => 101,
            Key::NumpadEqual => 102,
            Key::NumpadHash => 103,
            Key::NumpadMemoryAdd => 104,
            Key::NumpadMemoryClear => 105,
            Key::NumpadMemoryRecall => 106,
            Key::NumpadMemoryStore => 107,
            Key::NumpadMemorySubtract => 108,
            Key::NumpadMultiply => 109,
            Key::NumpadParenLeft => 110,
            Key::NumpadParenRight => 111,
            Key::NumpadStar => 112,
            Key::NumpadSubtract => 113,
            Key::Escape => 114,
            Key::Fn => 115,
            Key::FnLock => 116,
            Key::PrintScreen => 117,
            Key::ScrollLock => 118,
            Key::Pause => 119,
            Key::BrowserBack => 120,
            Key::BrowserFavorites => 121,
            Key::BrowserForward => 122,
            Key::BrowserHome => 123,
            Key::BrowserRefresh => 124,
            Key::BrowserSearch => 125,
            Key::BrowserStop => 126,
            Key::Eject => 127,
            Key::LaunchApp1 => 128,
            Key::LaunchApp2 => 129,
            Key::LaunchMail => 130,
            Key::MediaPlayPause => 131,
            Key::MediaSelect => 132,
            Key::MediaStop => 133,
            Key::MediaTrackNext => 134,
            Key::MediaTrackPrevious => 135,
            Key::Power => 136,
            Key::Sleep => 137,
            Key::AudioVolumeDown => 138,
            Key::AudioVolumeMute => 139,
            Key::AudioVolumeUp => 140,
            Key::WakeUp => 141,
            Key::Meta => 142,
            Key::Hyper => 143,
            Key::Turbo => 144,
            Key::Abort => 145,
            Key::Resume => 146,
            Key::Suspend => 147,
            Key::Again => 148,
            Key::Copy => 149,
            Key::Cut => 150,
            Key::Find => 151,
            Key::Open => 152,
            Key::Paste => 153,
            Key::Props => 154,
            Key::Select => 155,
            Key::Undo => 156,
            Key::Hiragana => 157,
            Key::Katakana => 158,
            Key::F1 => 159,
            Key::F2 => 160,
            Key::F3 => 161,
            Key::F4 => 162,
            Key::F5 => 163,
            Key::F6 => 164,
            Key::F7 => 165,
            Key::F8 => 166,
            Key::F9 => 167,
            Key::F10 => 168,
            Key::F11 => 169,
            Key::F12 => 170,
            Key::F13 => 171,
            Key::F14 => 172,
            Key::F15 => 173,
            Key::F16 => 174,
            Key::F17 => 175,
            Key::F18 => 176,
            Key::F19 => 177,
            Key::F20 => 178,
            Key::F21 => 179,
            Key::F22 => 180,
            Key::F23 => 181,
            Key::F24 => 182,
            Key::F25 => 183,
            Key::F26 => 184,
            Key::F27 => 185,
            Key::F28 => 186,
            Key::F29 => 187,
            Key::F30 => 188,
            Key::F31 => 189,
            Key::F32 => 190,
            Key::F33 => 191,
            Key::F34 => 192,
            Key::F35 => 193,
            Key::Shift => 194,
            Key::Ctrl => 195,
            Key::Alt => 196,
            Key::Logo => 197,
        }
    }

    /// The key at a position in declaration order, if there is one.
    pub open spec fn spec_from_repr(discriminant: usize) -> Option<Key> {
        match discriminant {
            0 => Some(Key::Backquote),
            1 => Some(Key::Backslash),
            2 => Some(Key::BracketLeft),
            3 => Some(Key::BracketRight),
            4 => Some(Key::Comma),
            5 => Some(Key::Digit0),
            6 => Some(Key::Digit1),
            7 => Some(Key::Digit2),
            8 => Some(Key::Digit3),
            9 => Some(Key::Digit4),
            10 => Some(Key::Digit5),
            11 => Some(Key::Digit6),
            12 => Some(Key::Digit7),
            13 => Some(Key::Digit8),
            14 => Some(Key::Digit9),
            15 => Some(Key::Equal),
            16 => Some(Key::IntlBackslash),
            17 => Some(Key::IntlRo),
            18 => Some(Key::IntlYen),
            19 => Some(Key::A),
            20 => Some(Key::B),
            21 => Some(Key::C),
            22 => Some(Key::D),
            23 => Some(Key::E),
            24 => Some(Key::F),
            25 => Some(Key::G),
            26 => Some(Key::H),
            27 => Some(Key::I),
            28 => Some(Key::J),
            29 => Some(Key::K),
            30 => Some(Key::L),
            31 => Some(Key::M),
            32 => Some(Key::N),
            33 => Some(Key::O),
            34 => Some(Key::P),
            35 => Some(Key::Q),
            36 => Some(Key::R),
            37 => Some(Key::S),
            38 => Some(Key::T),
            39 => Some(Key::U),
            40 => Some(Key::V),
            41 => Some(Key::W),
            42 => Some(Key::X),
            43 => Some(Key::Y),
            44 => Some(Key::Z),
            45 => Some(Key::Minus),
            46 => Some(Key::Period),
            47 => Some(Key::Quote),
            48 => Some(Key::Semicolon),
            49 => Some(Key::Slash),
            50 => Some(Key::AltLeft),
            51 => Some(Key::AltRight),
            52 => Some(Key::Backspace),
            53 => Some(Key::CapsLock),
            54 => Some(Key::ContextMenu),
            55 => Some(Key::ControlLeft),
            56 => Some(Key::ControlRight),
            57 => Some(Key::Enter),
            58 => Some(Key::SuperLeft),
            59 => Some(Key::SuperRight),
            60 => Some(Key::ShiftLeft),
            61 => Some(Key::ShiftRight),
            62 => Some(Key::Space),
            63 => Some(Key::Tab),
            64 => Some(Key::Convert),
            65 => Some(Key::KanaMode),
            66 => Some(Key::Lang1),
            67 => Some(Key::Lang2),
            68 => Some(Key::Lang3),
            69 => Some(Key::Lang4),
            70 => Some(Key::Lang5),
            71 => Some(Key::NonConvert),
            72 => Some(Key::Delete),
            73 => Some(Key::End),
            74 => Some(Key::Help),
            75 => Some(Key::Home),
            76 => Some(Key::Insert),
            77 => Some(Key::PageDown),
            78 => Some(Key::PageUp),
            79 => Some(Key::ArrowDown),
            80 => Some(Key::ArrowLeft),
            81 => Some(Key::ArrowRight),
            82 => Some(Key::ArrowUp),
            83 => Some(Key::NumLock),
            84 => Some(Key::Numpad0),
            85 => Some(Key::Numpad1),
            86 => Some(Key::Numpad2),
            87 => Some(Key::Numpad3),
            88 => Some(Key::Numpad4),
            89 => Some(Key::Numpad5),
            90 => Some(Key::Numpad6),
            91 => Some(Key::Numpad7),
            92 => Some(Key::Numpad8),
            93 => Some(Key::Numpad9),
            94 => Some(Key::NumpadAdd),
            95 => Some(Key::NumpadBackspace),
            96 => Some(Key::NumpadClear),
            97 => Some(Key::NumpadClearEntry),
            98 => Some(Key::NumpadComma),
            99 => Some(Key::NumpadDecimal),
            100 => Some(Key::NumpadDivide),
            101 => Some(Key::NumpadEnter),
            102 => Some(Key::NumpadEqual),
            103 => Some(Key::NumpadHash),
            104 => Some(Key::NumpadMemoryAdd),
            105 => Some(Key::NumpadMemoryClear),
            106 => Some(Key::NumpadMemoryRecall),
            107 => Some(Key::NumpadMemoryStore),
            108 => Some(Key::NumpadMemorySubtract),
            109 => Some(Key::NumpadMultiply),
            110 => Some(Key::NumpadParenLeft),
            111 => Some(Key::NumpadParenRight),
            112 => Some(Key::NumpadStar),
            113 => Some(Key::NumpadSubtract),
            114 => Some(Key::Escape),
            115 => Some(Key::Fn),
            116 => Some(Key::FnLock),
            117 => Some(Key::PrintScreen),
            118 => Some(Key::ScrollLock),
            119 => Some(Key::Pause),
            120 => Some(Key::BrowserBack),
            121 => Some(Key::BrowserFavorites),
            122 => Some(Key::BrowserForward),
            123 => Some(Key::BrowserHome),
            124 => Some(Key::BrowserRefresh),
            125 => Some(Key::BrowserSearch),
            126 => Some(Key::BrowserStop),
            127 => Some(Key::Eject),
            128 => Some(Key::LaunchApp1),
            129 => Some(Key::LaunchApp2),
            130 => Some(Key::LaunchMail),
            131 => Some(Key::MediaPlayPause),
            132 => Some(Key::MediaSelect),
            133 => Some(Key::MediaStop),
            134 => Some(Key::MediaTrackNext),
            135 => Some(Key::MediaTrackPrevious),
            136 => Some(Key::Power),
            137 => Some(Key::Sleep),
            138 => Some(Key::AudioVolumeDown),
            139 => Some(Key::AudioVolumeMute),
            140 => Some(Key::AudioVolumeUp),
            141 => Some(Key::WakeUp),
            142 => Some(Key::Meta),
            143 => Some(Key::Hyper),
            144 => Some(Key::Turbo),
            145 => Some(Key::Abort),
            146 => Some(Key::Resume),
            147 => Some(Key::Suspend),
            148 => Some(Key::Again),
            149 => Some(Key::Copy),
            150 => Some(Key::Cut),
            151 => Some(Key::Find),
            152 => Some(Key::Open),
            153 => Some(Key::Paste),
            154 => Some(Key::Props),
            155 => Some(Key::Select),
            156 => Some(Key::Undo),
            157 => Some(Key::Hiragana),
            158 => Some(Key::Katakana),
            159 => Some(Key::F1),
            160 => Some(Key::F2),
            161 => Some(Key::F3),
            162 => Some(Key::F4),
            163 => Some(Key::F5),
            164 => Some(Key::F6),
            165 => Some(Key::F7),
            166 => Some(Key::F8),
            167 => Some(Key::F9),
            168 => Some(Key::F10),
            169 => Some(Key::F11),
            170 => Some(Key::F12),
            171 => Some(Key::F13),
            172 => Some(Key::F14),
            173 => Some(Key::F15),
            174 => Some(Key::F16),
            175 => Some(Key::F17),
            176 => Some(Key::F18),
            177 => Some(Key::F19),
            178 => Some(Key::F20),
            179 => Some(Key::F21),
            180 => Some(Key::F22),
            181 => Some(Key::F23),
            182 => Some(Key::F24),
            183 => Some(Key::F25),
            184 => Some(Key::F26),
            185 => Some(Key::F27),
            186 => Some(Key::F28),
            187 => Some(Key::F29),
            188 => Some(Key::F30),
            189 => Some(Key::F31),
            190 => Some(Key::F32),
            191 => Some(Key::F33),
            192 => Some(Key::F34),
            193 => Some(Key::F35),
            194 => Some(Key::Shift),
            195 => Some(Key::Ctrl),
            196 => Some(Key::Alt),
            197 => Some(Key::Logo),
            _ => None,
        }
    }

    /// Position of the key in declaration order: its slot in the key table.
    pub fn index(self) -> (i: usize)
        ensures
            i == self.spec_index(),
            i < KEY_COUNT,
    {
        match self {
            Key::Backquote => 0,
            Key::Backslash => 1,
            Key::BracketLeft => 2,
            Key::BracketRight => 3,
            Key::Comma => 4,
            Key::Digit0 => 5,
            Key::Digit1 => 6,
            Key::Digit2 => 7,
            Key::Digit3 => 8,
            Key::Digit4 => 9,
            Key::Digit5 => 10,
            Key::Digit6 => 11,
            Key::Digit7 => 12,
            Key::Digit8 => 13,
            Key::Digit9 => 14,
            Key::Equal => 15,
            Key::IntlBackslash => 16,
            Key::IntlRo => 17,
            Key::IntlYen => 18,
            Key::A => 19,
            Key::B => 20,
            Key::C => 21,
            Key::D => 22,
            Key::E => 23,
            Key::F => 24,
            Key::G => 25,
            Key::H => 26,
            Key::I => 27,
            Key::J => 28,
            Key::K => 29,
            Key::L => 30,
            Key::M => 31,
            Key::N => 32,
            Key::O => 33,
            Key::P => 34,
            Key::Q => 35,
            Key::R => 36,
            Key::S => 37,
            Key::T => 38,
            Key::U => 39,
            Key::V => 40,
            Key::W => 41,
            Key::X => 42,
            Key::Y => 43,
            Key::Z => 44,
            Key::Minus => 45,
            Key::Period => 46,
            Key::Quote => 47,
            Key::Semicolon => 48,
            Key::Slash => 49,
            Key::AltLeft => 50,
            Key::AltRight => 51,
            Key::Backspace => 52,
            Key::CapsLock => 53,
            Key::ContextMenu => 54,
            Key::ControlLeft => 55,
            Key::ControlRight => 56,
            Key::Enter => 57,
            Key::SuperLeft => 58,
            Key::SuperRight => 59,
            Key::ShiftLeft => 60,
            Key::ShiftRight => 61,
            Key::Space => 62,
            Key::Tab => 63,
            Key::Convert => 64,
            Key::KanaMode => 65,
            Key::Lang1 => 66,
            Key::Lang2 => 67,
            Key::Lang3 => 68,
            Key::Lang4 => 69,
            Key::Lang5 => 70,
            Key::NonConvert => 71,
            Key::Delete => 72,
            Key::End => 73,
            Key::Help => 74,
            Key::Home => 75,
            Key::Insert => 76,
            Key::PageDown => 77,
            Key::PageUp => 78,
            Key::ArrowDown => 79,
            Key::ArrowLeft => 80,
            Key::ArrowRight => 81,
            Key::ArrowUp => 82,
            Key::NumLock => 83,
            Key::Numpad0 => 84,
            Key::Numpad1 => 85,
            Key::Numpad2 => 86,
            Key::Numpad3 => 87,
            Key::Numpad4 => 88,
            Key::Numpad5 => 89,
            Key::Numpad6 => 90,
            Key::Numpad7 => 91,
            Key::Numpad8 => 92,
            Key::Numpad9 => 93,
            Key::NumpadAdd => 94,
            Key::NumpadBackspace => 95,
            Key::NumpadClear => 96,
            Key::NumpadClearEntry => 97,
            Key::NumpadComma => 98,
            Key::NumpadDecimal => 99,
            Key::NumpadDivide => 100,
            Key::NumpadEnter => 101,
            Key::NumpadEqual => 102,
            Key::NumpadHash => 103,
            Key::NumpadMemoryAdd => 104,
            Key::NumpadMemoryClear => 105,
            Key::NumpadMemoryRecall => 106,
            Key::NumpadMemoryStore => 107,
            Key::NumpadMemorySubtract => 108,
            Key::NumpadMultiply => 109,
            Key::NumpadParenLeft => 110,
            Key::NumpadParenRight => 111,
            Key::NumpadStar => 112,
            Key::NumpadSubtract => 113,
            Key::Escape => 114,
            Key::Fn => 115,
            Key::FnLock => 116,
            Key::PrintScreen => 117,
            Key::ScrollLock => 118,
            Key::Pause => 119,
            Key::BrowserBack => 120,
            Key::BrowserFavorites => 121,
            Key::BrowserForward => 122,
            Key::BrowserHome => 123,
            Key::BrowserRefresh => 124,
            Key::BrowserSearch => 125,
            Key::BrowserStop => 126,
            Key::Eject => 127,
            Key::LaunchApp1 => 128,
            Key::LaunchApp2 => 129,
            Key::LaunchMail => 130,
            Key::MediaPlayPause => 131,
            Key::MediaSelect => 132,
            Key::MediaStop => 133,
            Key::MediaTrackNext => 134,
            Key::MediaTrackPrevious => 135,
            Key::Power => 136,
            Key::Sleep => 137,
            Key::AudioVolumeDown => 138,
            Key::AudioVolumeMute => 139,
            Key::AudioVolumeUp => 140,
            Key::WakeUp => 141,
            Key::Meta => 142,
            Key::Hyper => 143,
            Key::Turbo => 144,
            Key::Abort => 145,
            Key::Resume => 146,
            Key::Suspend => 147,
            Key::Again => 148,
            Key::Copy => 149,
            Key::Cut => 150,
            Key::Find => 151,
            Key::Open => 152,
            Key::Paste => 153,
            Key::Props => 154,
            Key::Select => 155,
            Key::Undo => 156,
            Key::Hiragana => 157,
            Key::Katakana => 158,
            Key::F1 => 159,
            Key::F2 => 160,
            Key::F3 => 161,
            Key::F4 => 162,
            Key::F5 => 163,
            Key::F6 => 164,
            Key::F7 => 165,
            Key::F8 => 166,
            Key::F9 => 167,
            Key::F10 => 168,
            Key::F11 => 169,
            Key::F12 => 170,
            Key::F13 => 171,
            Key::F14 => 172,
            Key::F15 => 173,
            Key::F16 => 174,
            Key::F17 => 175,
            Key::F18 => 176,
            Key::F19 => 177,
            Key::F20 => 178,
            Key::F21 => 179,
            Key::F22 => 180,
            Key::F23 => 181,
            Key::F24 => 182,
            Key::F25 => 183,
            Key::F26 => 184,
            Key::F27 => 185,
            Key::F28 => 186,
            Key::F29 => 187,
            Key::F30 => 188,
            Key::F31 => 189,
            Key::F32 => 190,
            Key::F33 => 191,
            Key::F34 => 192,
            Key::F35 => 193,
            Key::Shift => 194,
            Key::Ctrl => 195,
            Key::Alt => 196,
            Key::Logo => 197,
        }
    }

    /// The key at a position, or `None` when the position is past the last key.
    pub fn from_repr(discriminant: usize) -> (key: Option<Self>)
        ensures
            key == Key::spec_from_repr(discriminant),
    {
        match discriminant {
            0 => Some(Key::Backquote),
            1 => Some(Key::Backslash),
            2 => Some(Key::BracketLeft),
            3 => Some(Key::BracketRight),
            4 => Some(Key::Comma),
            5 => Some(Key::Digit0),
            6 => Some(Key::Digit1),
            7 => Some(Key::Digit2),
            8 => Some(Key::Digit3),
            9 => Some(Key::Digit4),
            10 => Some(Key::Digit5),
            11 => Some(Key::Digit6),
            12 => Some(Key::Digit7),
            13 => Some(Key::Digit8),
            14 => Some(Key::Digit9),
            15 => Some(Key::Equal),
            16 => Some(Key::IntlBackslash),
            17 => Some(Key::IntlRo),
            18 => Some(Key::IntlYen),
            19 => Some(Key::A),
            20 => Some(Key::B),
            21 => Some(Key::C),
            22 => Some(Key::D),
            23 => Some(Key::E),
            24 => Some(Key::F),
            25 => Some(Key::G),
            26 => Some(Key::H),
            27 => Some(Key::I),
            28 => Some(Key::J),
            29 => Some(Key::K),
            30 => Some(Key::L),
            31 => Some(Key::M),
            32 => Some(Key::N),
            33 => Some(Key::O),
            34 => Some(Key::P),
            35 => Some(Key::Q),
            36 => Some(Key::R),
            37 => Some(Key::S),
            38 => Some(Key::T),
            39 => Some(Key::U),
            40 => Some(Key::V),
            41 => Some(Key::W),
            42 => Some(Key::X),
            43 => Some(Key::Y),
            44 => Some(Key::Z),
            45 => Some(Key::Minus),
            46 => Some(Key::Period),
            47 => Some(Key::Quote),
            48 => Some(Key::Semicolon),
            49 => Some(Key::Slash),
            50 => Some(Key::AltLeft),
            51 => Some(Key::AltRight),
            52 => Some(Key::Backspace),
            53 => Some(Key::CapsLock),
            54 => Some(Key::ContextMenu),
            55 => Some(Key::ControlLeft),
            56 => Some(Key::ControlRight),
            57 => Some(Key::Enter),
            58 => Some(Key::SuperLeft),
            59 => Some(Key::SuperRight),
            60 => Some(Key::ShiftLeft),
            61 => Some(Key::ShiftRight),
            62 => Some(Key::Space),
            63 => Some(Key::Tab),
            64 => Some(Key::Convert),
            65 => Some(Key::KanaMode),
            66 => Some(Key::Lang1),
            67 => Some(Key::Lang2),
            68 => Some(Key::Lang3),
            69 => Some(Key::Lang4),
            70 => Some(Key::Lang5),
            71 => Some(Key::NonConvert),
            72 => Some(Key::Delete),
            73 => Some(Key::End),
            74 => Some(Key::Help),
            75 => Some(Key::Home),
            76 => Some(Key::Insert),
            77 => Some(Key::PageDown),
            78 => Some(Key::PageUp),
            79 => Some(Key::ArrowDown),
            80 => Some(Key::ArrowLeft),
            81 => Some(Key::ArrowRight),
            82 => Some(Key::ArrowUp),
            83 => Some(Key::NumLock),
            84 => Some(Key::Numpad0),
            85 => Some(Key::Numpad1),
            86 => Some(Key::Numpad2),
            87 => Some(Key::Numpad3),
            88 => Some(Key::Numpad4),
            89 => Some(Key::Numpad5),
            90 => Some(Key::Numpad6),
            91 => Some(Key::Numpad7),
            92 => Some(Key::Numpad8),
            93 => Some(Key::Numpad9),
            94 => Some(Key::NumpadAdd),
            95 => Some(Key::NumpadBackspace),
            96 => Some(Key::NumpadClear),
            97 => Some(Key::NumpadClearEntry),
            98 => Some(Key::NumpadComma),
            99 => Some(Key::NumpadDecimal),
            100 => Some(Key::NumpadDivide),
            101 => Some(Key::NumpadEnter),
            102 => Some(Key::NumpadEqual),
            103 => Some(Key::NumpadHash),
            104 => Some(Key::NumpadMemoryAdd),
            105 => Some(Key::NumpadMemoryClear),
            106 => Some(Key::NumpadMemoryRecall),
            107 => Some(Key::NumpadMemoryStore),
            108 => Some(Key::NumpadMemorySubtract),
            109 => Some(Key::NumpadMultiply),
            110 => Some(Key::NumpadParenLeft),
            111 => Some(Key::NumpadParenRight),
            112 => Some(Key::NumpadStar),
            113 => Some(Key::NumpadSubtract),
            114 => Some(Key::Escape),
            115 => Some(Key::Fn),
            116 => Some(Key::FnLock),
            117 => Some(Key::PrintScreen),
            118 => Some(Key::ScrollLock),
            119 => Some(Key::Pause),
            120 => Some(Key::BrowserBack),
            121 => Some(Key::BrowserFavorites),
            122 => Some(Key::BrowserForward),
            123 => Some(Key::BrowserHome),
            124 => Some(Key::BrowserRefresh),
            125 => Some(Key::BrowserSearch),
            126 => Some(Key::BrowserStop),
            127 => Some(Key::Eject),
            128 => Some(Key::LaunchApp1),
            129 => Some(Key::LaunchApp2),
            130 => Some(Key::LaunchMail),
            131 => Some(Key::MediaPlayPause),
            132 => Some(Key::MediaSelect),
            133 => Some(Key::MediaStop),
            134 => Some(Key::MediaTrackNext),
            135 => Some(Key::MediaTrackPrevious),
            136 => Some(Key::Power),
            137 => Some(Key::Sleep),
            138 => Some(Key::AudioVolumeDown),
            139 => Some(Key::AudioVolumeMute),
            140 => Some(Key::AudioVolumeUp),
            141 => Some(Key::WakeUp),
            142 => Some(Key::Meta),
            143 => Some(Key::Hyper),
            144 => Some(Key::Turbo),
            145 => Some(Key::Abort),
            146 => Some(Key::Resume),
            147 => Some(Key::Suspend),
            148 => Some(Key::Again),
            149 => Some(Key::Copy),
            150 => Some(Key::Cut),
            151 => Some(Key::Find),
            152 => Some(Key::Open),
            153 => Some(Key::Paste),
            154 => Some(Key::Props),
            155 => Some(Key::Select),
            156 => Some(Key::Undo),
            157 => Some(Key::Hiragana),
            158 => Some(Key::Katakana),
            159 => Some(Key::F1),
            160 => Some(Key::F2),
            161 => Some(Key::F3),
            162 => Some(Key::F4),
            163 => Some(Key::F5),
            164 => Some(Key::F6),
            165 => Some(Key::F7),
            166 => Some(Key::F8),
            167 => Some(Key::F9),
            168 => Some(Key::F10),
            169 => Some(Key::F11),
            170 => Some(Key::F12),
            171 => Some(Key::F13),
            172 => Some(Key::F14),
            173 => Some(Key::F15),
            174 => Some(Key::F16),
            175 => Some(Key::F17),
            176 => Some(Key::F18),
            177 => Some(Key::F19),
            178 => Some(Key::F20),
            179 => Some(Key::F21),
            180 => Some(Key::F22),
            181 => Some(Key::F23),
            182 => Some(Key::F24),
            183 => Some(Key::F25),
            184 => Some(Key::F26),
            185 => Some(Key::F27),
            186 => Some(Key::F28),
            187 => Some(Key::F29),
            188 => Some(Key::F30),
            189 => Some(Key::F31),
            190 => Some(Key::F32),
            191 => Some(Key::F33),
            192 => Some(Key::F34),
            193 => Some(Key::F35),
            194 => Some(Key::Shift),
            195 => Some(Key::Ctrl),
            196 => Some(Key::Alt),
            197 => Some(Key::Logo),
            _ => None,
        }
    }

    /// A position names a key exactly when it is below the key count, and the
    /// key it names sits at that position.
    pub proof fn from_repr_inverts_index(discriminant: usize)
        ensures
            Key::spec_from_repr(discriminant).is_some() <==> discriminant < KEY_COUNT,
            Key::spec_from_repr(discriminant).is_some() ==> Key::spec_from_repr(
                discriminant,
            ).unwrap().spec_index() == discriminant,
    {
    }

    /// Looking a key's own position up gives the key back.
    pub proof fn index_round_trip(self)
        ensures
            Key::spec_from_repr(self.spec_index() as usize) == Some(self),
    {
    }

    /// Every key has a slot in the key table.
    pub proof fn index_in_range(self)
        ensures
            self.spec_index() < KEY_COUNT,
    {
    }

    /// Two keys with the same index are the same key.
    pub proof fn index_injective(a: Key, b: Key)
        requires
            a.spec_index() == b.spec_index(),
        ensures
            a == b,
    {
    }
}

impl MouseBtn {
    /// Number of variants.
    pub const COUNT: usize = MOUSE_BTN_COUNT;

    /// Position of the button in declaration order, starting at zero.
    pub open spec fn spec_index(self) -> nat {
        match self {
            MouseBtn::Left => 0,
            MouseBtn::Right => 1,
            MouseBtn::Middle => 2,
            MouseBtn::Back => 3,
            MouseBtn::Forward => 4,
        }
    }

    /// Position of the button in declaration order: its slot in the button table.
    pub fn index(self) -> (i: usize)
        ensures
            i == self.spec_index(),
            i < MOUSE_BTN_COUNT,
    {
        match self {
            MouseBtn::Left => 0,
            MouseBtn::Right => 1,
            MouseBtn::Middle => 2,
            MouseBtn::Back => 3,
            MouseBtn::Forward => 4,
        }
    }

    /// The button at a position in declaration order, if there is one.
    pub open spec fn spec_from_repr(discriminant: usize) -> Option<MouseBtn> {
        match discriminant {
            0 => Some(MouseBtn::Left),
            1 => Some(MouseBtn::Right),
            2 => Some(MouseBtn::Middle),
            3 => Some(MouseBtn::Back),
            4 => Some(MouseBtn::Forward),
            _ => None,
        }
    }

    /// Looking a button's own position up gives the button back.
    pub proof fn index_round_trip(self)
        ensures
            MouseBtn::spec_from_repr(self.spec_index() as usize) == Some(self),
    {
    }

    /// The button at a position, or `None` when the position is past the last button.
    pub fn from_repr(discriminant: usize) -> (btn: Option<Self>)
        ensures
            btn == MouseBtn::spec_from_repr(discriminant),
    {
        match discriminant {
            0 => Some(MouseBtn::Left),
            1 => Some(MouseBtn::Right),
            2 => Some(MouseBtn::Middle),
            3 => Some(MouseBtn::Back),
            4 => Some(MouseBtn::Forward),
            _ => None,
        }
    }

    /// Two buttons with the same index are the same button.
    pub proof fn index_injective(a: MouseBtn, b: MouseBtn)
        requires
            a.spec_index() == b.spec_index(),
        ensures
            a == b,
    {
    }
}

} // verus!
