//! Key codes and their translation to and from the native keys.

use vstd::prelude::*;

verus! {

/// A keyboard key as it crosses the boundary.
///
/// Every physical key the native library knows has one variant here, in the
/// order of the integer codes that stand for them. `Unknown` is the key no
/// other variant describes. `Count` stands behind the last key: it bounds
/// arrays indexed by key and never names a key that was pressed.
#[derive(Debug, Clone, Copy, PartialEq, Eq, Structural)]
pub enum MiniFBKey {
    Key0,
    Key1,
    Key2,
    Key3,
    Key4,
    Key5,
    Key6,
    Key7,
    Key8,
    Key9,
    A,
    B,
    C,
    D,
    E,
    F,
    G,
    H,
    I,
    J,
    K,
    L,
    M,
    N,
    O,
    P,
    Q,
    R,
    S,
    T,
    U,
    V,
    W,
    X,
    Y,
    Z,
    F1,
    F2,
    F3,
    F4,
    F5,
    F6,
    F7,
    F8,
    F9,
    F10,
    F11,
    F12,
    F13,
    F14,
    F15,
    Down,
    Left,
    Right,
    Up,
    Apostrophe,
    Backquote,
    Backslash,
    Comma,
    Equal,
    LeftBracket,
    Minus,
    Period,
    RightBracket,
    Semicolon,
    Slash,
    Backspace,
    Delete,
    End,
    Enter,
    Escape,
    Home,
    Insert,
    Menu,
    PageDown,
    PageUp,
    Pause,
    Space,
    Tab,
    NumLock,
    CapsLock,
    ScrollLock,
    LeftShift,
    RightShift,
    LeftCtrl,
    RightCtrl,
    NumPad0,
    NumPad1,
    NumPad2,
    NumPad3,
    NumPad4,
    NumPad5,
    NumPad6,
    NumPad7,
    NumPad8,
    NumPad9,
    NumPadDot,
    NumPadSlash,
    NumPadAsterisk,
    NumPadMinus,
    NumPadPlus,
    NumPadEnter,
    LeftAlt,
    RightAlt,
    LeftSuper,
    RightSuper,
    Unknown,
    Count,
}

impl MiniFBKey {
    /// The integer that stands for this key on the wire: its position in the
    /// enumeration, counted from zero.
    pub open spec fn wire_code(self) -> int {
        match self {
            MiniFBKey::Key0 => 0,
            MiniFBKey::Key1 => 1,
            MiniFBKey::Key2 => 2,
            MiniFBKey::Key3 => 3,
            MiniFBKey::Key4 => 4,
            MiniFBKey::Key5 => 5,
            MiniFBKey::Key6 => 6,
            MiniFBKey::Key7 => 7,
            MiniFBKey::Key8 => 8,
            MiniFBKey::Key9 => 9,
            MiniFBKey::A => 10,
            MiniFBKey::B => 11,
            MiniFBKey::C => 12,
            MiniFBKey::D => 13,
            MiniFBKey::E => 14,
            MiniFBKey::F => 15,
            MiniFBKey::G => 16,
            MiniFBKey::H => 17,
            MiniFBKey::I => 18,
            MiniFBKey::J => 19,
            MiniFBKey::K => 20,
            MiniFBKey::L => 21,
            MiniFBKey::M => 22,
            MiniFBKey::N => 23,
            MiniFBKey::O => 24,
            MiniFBKey::P => 25,
            MiniFBKey::Q => 26,
            MiniFBKey::R => 27,
            MiniFBKey::S => 28,
            MiniFBKey::T => 29,
            MiniFBKey::U => 30,
            MiniFBKey::V => 31,
            MiniFBKey::W => 32,
            MiniFBKey::X => 33,
            MiniFBKey::Y => 34,
            MiniFBKey::Z => 35,
            MiniFBKey::F1 => 36,
            MiniFBKey::F2 => 37,
            MiniFBKey::F3 => 38,
            MiniFBKey::F4 => 39,
            MiniFBKey::F5 => 40,
            MiniFBKey::F6 => 41,
            MiniFBKey::F7 => 42,
            MiniFBKey::F8 => 43,
            MiniFBKey::F9 => 44,
            MiniFBKey::F10 => 45,
            MiniFBKey::F11 => 46,
            MiniFBKey::F12 => 47,
            MiniFBKey::F13 => 48,
            MiniFBKey::F14 => 49,
            MiniFBKey::F15 => 50,
            MiniFBKey::Down => 51,
            MiniFBKey::Left => 52,
            MiniFBKey::Right => 53,
            MiniFBKey::Up => 54,
            MiniFBKey::Apostrophe => 55,
            MiniFBKey::Backquote => 56,
            MiniFBKey::Backslash => 57,
            MiniFBKey::Comma => 58,
            MiniFBKey::Equal => 59,
            MiniFBKey::LeftBracket => 60,
            MiniFBKey::Minus => 61,
            MiniFBKey::Period => 62,
            MiniFBKey::RightBracket => 63,
            MiniFBKey::Semicolon => 64,
            MiniFBKey::Slash => 65,
            MiniFBKey::Backspace => 66,
            MiniFBKey::Delete => 67,
            MiniFBKey::End => 68,
            MiniFBKey::Enter => 69,
            MiniFBKey::Escape => 70,
            MiniFBKey::Home => 71,
            MiniFBKey::Insert => 72,
            MiniFBKey::Menu => 73,
            MiniFBKey::PageDown => 74,
            MiniFBKey::PageUp => 75,
            MiniFBKey::Pause => 76,
            MiniFBKey::Space => 77,
            MiniFBKey::Tab => 78,
            MiniFBKey::NumLock => 79,
            MiniFBKey::CapsLock => 80,
            MiniFBKey::ScrollLock => 81,
            MiniFBKey::LeftShift => 82,
            MiniFBKey::RightShift => 83,
            MiniFBKey::LeftCtrl => 84,
            MiniFBKey::RightCtrl => 85,
            MiniFBKey::NumPad0 => 86,
            MiniFBKey::NumPad1 => 87,
            MiniFBKey::NumPad2 => 88,
            MiniFBKey::NumPad3 => 89,
            MiniFBKey::NumPad4 => 90,
            MiniFBKey::NumPad5 => 91,
            MiniFBKey::NumPad6 => 92,
            MiniFBKey::NumPad7 => 93,
            MiniFBKey::NumPad8 => 94,
            MiniFBKey::NumPad9 => 95,
            MiniFBKey::NumPadDot => 96,
            MiniFBKey::NumPadSlash => 97,
            MiniFBKey::NumPadAsterisk => 98,
            MiniFBKey::NumPadMinus => 99,
            MiniFBKey::NumPadPlus => 100,
            MiniFBKey::NumPadEnter => 101,
            MiniFBKey::LeftAlt => 102,
            MiniFBKey::RightAlt => 103,
            MiniFBKey::LeftSuper => 104,
            MiniFBKey::RightSuper => 105,
            MiniFBKey::Unknown => 106,
            MiniFBKey::Count => 107,
        }
    }

    /// The key that a wire code names. Codes outside the enumeration name
    /// no key.
    pub open spec fn of_code(code: i32) -> Option<MiniFBKey> {
        match code {
            0 => Some(MiniFBKey::Key0),
            1 => Some(MiniFBKey::Key1),
            2 => Some(MiniFBKey::Key2),
            3 => Some(MiniFBKey::Key3),
            4 => Some(MiniFBKey::Key4),
            5 => Some(MiniFBKey::Key5),
            6 => Some(MiniFBKey::Key6),
            7 => Some(MiniFBKey::Key7),
            8 => Some(MiniFBKey::Key8),
            9 => Some(MiniFBKey::Key9),
            10 => Some(MiniFBKey::A),
            11 => Some(MiniFBKey::B),
            12 => Some(MiniFBKey::C),
            13 => Some(MiniFBKey::D),
            14 => Some(MiniFBKey::E),
            15 => Some(MiniFBKey::F),
            16 => Some(MiniFBKey::G),
            17 => Some(MiniFBKey::H),
            18 => Some(MiniFBKey::I),
            19 => Some(MiniFBKey::J),
            20 => Some(MiniFBKey::K),
            21 => Some(MiniFBKey::L),
            22 => Some(MiniFBKey::M),
            23 => Some(MiniFBKey::N),
            24 => Some(MiniFBKey::O),
            25 => Some(MiniFBKey::P),
            26 => Some(MiniFBKey::Q),
            27 => Some(MiniFBKey::R),
            28 => Some(MiniFBKey::S),
            29 => Some(MiniFBKey::T),
            30 => Some(MiniFBKey::U),
            31 => Some(MiniFBKey::V),
            32 => Some(MiniFBKey::W),
            33 => Some(MiniFBKey::X),
            34 => Some(MiniFBKey::Y),
            35 => Some(MiniFBKey::Z),
            36 => Some(MiniFBKey::F1),
            37 => Some(MiniFBKey::F2),
            38 => Some(MiniFBKey::F3),
            39 => Some(MiniFBKey::F4),
            40 => Some(MiniFBKey::F5),
            41 => Some(MiniFBKey::F6),
            42 => Some(MiniFBKey::F7),
            43 => Some(MiniFBKey::F8),
            44 => Some(MiniFBKey::F9),
            45 => Some(MiniFBKey::F10),
            46 => Some(MiniFBKey::F11),
            47 => Some(MiniFBKey::F12),
            48 => Some(MiniFBKey::F13),
            49 => Some(MiniFBKey::F14),
            50 => Some(MiniFBKey::F15),
            51 => Some(MiniFBKey::Down),
            52 => Some(MiniFBKey::Left),
            53 => Some(MiniFBKey::Right),
            54 => Some(MiniFBKey::Up),
            55 => Some(MiniFBKey::Apostrophe),
            56 => Some(MiniFBKey::Backquote),
            57 => Some(MiniFBKey::Backslash),
            58 => Some(MiniFBKey::Comma),
            59 => Some(MiniFBKey::Equal),
            60 => Some(MiniFBKey::LeftBracket),
            61 => Some(MiniFBKey::Minus),
            62 => Some(MiniFBKey::Period),
            63 => Some(MiniFBKey::RightBracket),
            64 => Some(MiniFBKey::Semicolon),
            65 => Some(MiniFBKey::Slash),
            66 => Some(MiniFBKey::Backspace),
            67 => Some(MiniFBKey::Delete),
            68 => Some(MiniFBKey::End),
            69 => Some(MiniFBKey::Enter),
            70 => Some(MiniFBKey::Escape),
            71 => Some(MiniFBKey::Home),
            72 => Some(MiniFBKey::Insert),
            73 => Some(MiniFBKey::Menu),
            74 => Some(MiniFBKey::PageDown),
            75 => Some(MiniFBKey::PageUp),
            76 => Some(MiniFBKey::Pause),
            77 => Some(MiniFBKey::Space),
            78 => Some(MiniFBKey::Tab),
            79 => Some(MiniFBKey::NumLock),
            80 => Some(MiniFBKey::CapsLock),
            81 => Some(MiniFBKey::ScrollLock),
            82 => Some(MiniFBKey::LeftShift),
            83 => Some(MiniFBKey::RightShift),
            84 => Some(MiniFBKey::LeftCtrl),
            85 => Some(MiniFBKey::RightCtrl),
            86 => Some(MiniFBKey::NumPad0),
            87 => Some(MiniFBKey::NumPad1),
            88 => Some(MiniFBKey::NumPad2),
            89 => Some(MiniFBKey::NumPad3),
            90 => Some(MiniFBKey::NumPad4),
            91 => Some(MiniFBKey::NumPad5),
            92 => Some(MiniFBKey::NumPad6),
            93 => Some(MiniFBKey::NumPad7),
            94 => Some(MiniFBKey::NumPad8),
            95 => Some(MiniFBKey::NumPad9),
            96 => Some(MiniFBKey::NumPadDot),
            97 => Some(MiniFBKey::NumPadSlash),
            98 => Some(MiniFBKey::NumPadAsterisk),
            99 => Some(MiniFBKey::NumPadMinus),
            100 => Some(MiniFBKey::NumPadPlus),
            101 => Some(MiniFBKey::NumPadEnter),
            102 => Some(MiniFBKey::LeftAlt),
            103 => Some(MiniFBKey::RightAlt),
            104 => Some(MiniFBKey::LeftSuper),
            105 => Some(MiniFBKey::RightSuper),
            106 => Some(MiniFBKey::Unknown),
            107 => Some(MiniFBKey::Count),
            _ => None,
        }
    }

    /// The native key this wire key names. `Unknown` and `Count` both name
    /// the native `Unknown`.
    pub open spec fn native(self) -> minifb::Key {
        match self {
            MiniFBKey::Key0 => minifb::Key::Key0,
            MiniFBKey::Key1 => minifb::Key::Key1,
            MiniFBKey::Key2 => minifb::Key::Key2,
            MiniFBKey::Key3 => minifb::Key::Key3,
            MiniFBKey::Key4 => minifb::Key::Key4,
            MiniFBKey::Key5 => minifb::Key::Key5,
            MiniFBKey::Key6 => minifb::Key::Key6,
            MiniFBKey::Key7 => minifb::Key::Key7,
            MiniFBKey::Key8 => minifb::Key::Key8,
            MiniFBKey::Key9 => minifb::Key::Key9,
            MiniFBKey::A => minifb::Key::A,
            MiniFBKey::B => minifb::Key::B,
            MiniFBKey::C => minifb::Key::C,
            MiniFBKey::D => minifb::Key::D,
            MiniFBKey::E => minifb::Key::E,
            MiniFBKey::F => minifb::Key::F,
            MiniFBKey::G => minifb::Key::G,
            MiniFBKey::H => minifb::Key::H,
            MiniFBKey::I => minifb::Key::I,
            MiniFBKey::J => minifb::Key::J,
            MiniFBKey::K => minifb::Key::K,
            MiniFBKey::L => minifb::Key::L,
            MiniFBKey::M => minifb::Key::M,
            MiniFBKey::N => minifb::Key::N,
            MiniFBKey::O => minifb::Key::O,
            MiniFBKey::P => minifb::Key::P,
            MiniFBKey::Q => minifb::Key::Q,
            MiniFBKey::R => minifb::Key::R,
            MiniFBKey::S => minifb::Key::S,
            MiniFBKey::T => minifb::Key::T,
            MiniFBKey::U => minifb::Key::U,
            MiniFBKey::V => minifb::Key::V,
            MiniFBKey::W => minifb::Key::W,
            MiniFBKey::X => minifb::Key::X,
            MiniFBKey::Y => minifb::Key::Y,
            MiniFBKey::Z => minifb::Key::Z,
            MiniFBKey::F1 => minifb::Key::F1,
            MiniFBKey::F2 => minifb::Key::F2,
            MiniFBKey::F3 => minifb::Key::F3,
            MiniFBKey::F4 => minifb::Key::F4,
            MiniFBKey::F5 => minifb::Key::F5,
            MiniFBKey::F6 => minifb::Key::F6,
            MiniFBKey::F7 => minifb::Key::F7,
            MiniFBKey::F8 => minifb::Key::F8,
            MiniFBKey::F9 => minifb::Key::F9,
            MiniFBKey::F10 => minifb::Key::F10,
            MiniFBKey::F11 => minifb::Key::F11,
            MiniFBKey::F12 => minifb::Key::F12,
            MiniFBKey::F13 => minifb::Key::F13,
            MiniFBKey::F14 => minifb::Key::F14,
            MiniFBKey::F15 => minifb::Key::F15,
            MiniFBKey::Down => minifb::Key::Down,
            MiniFBKey::Left => minifb::Key::Left,
            MiniFBKey::Right => minifb::Key::Right,
            MiniFBKey::Up => minifb::Key::Up,
            MiniFBKey::Apostrophe => minifb::Key::Apostrophe,
            MiniFBKey::Backquote => minifb::Key::Backquote,
            MiniFBKey::Backslash => minifb::Key::Backslash,
            MiniFBKey::Comma => minifb::Key::Comma,
            MiniFBKey::Equal => minifb::Key::Equal,
            MiniFBKey::LeftBracket => minifb::Key::LeftBracket,
            MiniFBKey::Minus => minifb::Key::Minus,
            MiniFBKey::Period => minifb::Key::Period,
            MiniFBKey::RightBracket => minifb::Key::RightBracket,
            MiniFBKey::Semicolon => minifb::Key::Semicolon,
            MiniFBKey::Slash => minifb::Key::Slash,
            MiniFBKey::Backspace => minifb::Key::Backspace,
            MiniFBKey::Delete => minifb::Key::Delete,
            MiniFBKey::End => minifb::Key::End,
            MiniFBKey::Enter => minifb::Key::Enter,
            MiniFBKey::Escape => minifb::Key::Escape,
            MiniFBKey::Home => minifb::Key::Home,
            MiniFBKey::Insert => minifb::Key::Insert,
            MiniFBKey::Menu => minifb::Key::Menu,
            MiniFBKey::PageDown => minifb::Key::PageDown,
            MiniFBKey::PageUp => minifb::Key::PageUp,
            MiniFBKey::Pause => minifb::Key::Pause,
            MiniFBKey::Space => minifb::Key::Space,
            MiniFBKey::Tab => minifb::Key::Tab,
            MiniFBKey::NumLock => minifb::Key::NumLock,
            MiniFBKey::CapsLock => minifb::Key::CapsLock,
            MiniFBKey::ScrollLock => minifb::Key::ScrollLock,
            MiniFBKey::LeftShift => minifb::Key::LeftShift,
            MiniFBKey::RightShift => minifb::Key::RightShift,
            MiniFBKey::LeftCtrl => minifb::Key::LeftCtrl,
            MiniFBKey::RightCtrl => minifb::Key::RightCtrl,
            MiniFBKey::NumPad0 => minifb::Key::NumPad0,
            MiniFBKey::NumPad1 => minifb::Key::NumPad1,
            MiniFBKey::NumPad2 => minifb::Key::NumPad2,
            MiniFBKey::NumPad3 => minifb::Key::NumPad3,
            MiniFBKey::NumPad4 => minifb::Key::NumPad4,
            MiniFBKey::NumPad5 => minifb::Key::NumPad5,
            MiniFBKey::NumPad6 => minifb::Key::NumPad6,
            MiniFBKey::NumPad7 => minifb::Key::NumPad7,
            MiniFBKey::NumPad8 => minifb::Key::NumPad8,
            MiniFBKey::NumPad9 => minifb::Key::NumPad9,
            MiniFBKey::NumPadDot => minifb::Key::NumPadDot,
            MiniFBKey::NumPadSlash => minifb::Key::NumPadSlash,
            MiniFBKey::NumPadAsterisk => minifb::Key::NumPadAsterisk,
            MiniFBKey::NumPadMinus => minifb::Key::NumPadMinus,
            MiniFBKey::NumPadPlus => minifb::Key::NumPadPlus,
            MiniFBKey::NumPadEnter => minifb::Key::NumPadEnter,
            MiniFBKey::LeftAlt => minifb::Key::LeftAlt,
            MiniFBKey::RightAlt => minifb::Key::RightAlt,
            MiniFBKey::LeftSuper => minifb::Key::LeftSuper,
            MiniFBKey::RightSuper => minifb::Key::RightSuper,
            MiniFBKey::Unknown | MiniFBKey::Count => minifb::Key::Unknown,
        }
    }

    /// The wire key that reports a native key. The native `Unknown` and
    /// `Count` are both reported as `Unknown`.
    pub open spec fn of_native(key: minifb::Key) -> MiniFBKey {
        match key {
            minifb::Key::Key0 => MiniFBKey::Key0,
            minifb::Key::Key1 => MiniFBKey::Key1,
            minifb::Key::Key2 => MiniFBKey::Key2,
            minifb::Key::Key3 => MiniFBKey::Key3,
            minifb::Key::Key4 => MiniFBKey::Key4,
            minifb::Key::Key5 => MiniFBKey::Key5,
            minifb::Key::Key6 => MiniFBKey::Key6,
            minifb::Key::Key7 => MiniFBKey::Key7,
            minifb::Key::Key8 => MiniFBKey::Key8,
            minifb::Key::Key9 => MiniFBKey::Key9,
            minifb::Key::A => MiniFBKey::A,
            minifb::Key::B => MiniFBKey::B,
            minifb::Key::C => MiniFBKey::C,
            minifb::Key::D => MiniFBKey::D,
            minifb::Key::E => MiniFBKey::E,
            minifb::Key::F => MiniFBKey::F,
            minifb::Key::G => MiniFBKey::G,
            minifb::Key::H => MiniFBKey::H,
            minifb::Key::I => MiniFBKey::I,
            minifb::Key::J => MiniFBKey::J,
            minifb::Key::K => MiniFBKey::K,
            minifb::Key::L => MiniFBKey::L,
            minifb::Key::M => MiniFBKey::M,
            minifb::Key::N => MiniFBKey::N,
            minifb::Key::O => MiniFBKey::O,
            minifb::Key::P => MiniFBKey::P,
            minifb::Key::Q => MiniFBKey::Q,
            minifb::Key::R => MiniFBKey::R,
            minifb::Key::S => MiniFBKey::S,
            minifb::Key::T => MiniFBKey::T,
            minifb::Key::U => MiniFBKey::U,
            minifb::Key::V => MiniFBKey::V,
            minifb::Key::W => MiniFBKey::W,
            minifb::Key::X => MiniFBKey::X,
            minifb::Key::Y => MiniFBKey::Y,
            minifb::Key::Z => MiniFBKey::Z,
            minifb::Key::F1 => MiniFBKey::F1,
            minifb::Key::F2 => MiniFBKey::F2,
            minifb::Key::F3 => MiniFBKey::F3,
            minifb::Key::F4 => MiniFBKey::F4,
            minifb::Key::F5 => MiniFBKey::F5,
            minifb::Key::F6 => MiniFBKey::F6,
            minifb::Key::F7 => MiniFBKey::F7,
            minifb::Key::F8 => MiniFBKey::F8,
            minifb::Key::F9 => MiniFBKey::F9,
            minifb::Key::F10 => MiniFBKey::F10,
            minifb::Key::F11 => MiniFBKey::F11,
            minifb::Key::F12 => MiniFBKey::F12,
            minifb::Key::F13 => MiniFBKey::F13,
            minifb::Key::F14 => MiniFBKey::F14,
            minifb::Key::F15 => MiniFBKey::F15,
            minifb::Key::Down => MiniFBKey::Down,
            minifb::Key::Left => MiniFBKey::Left,
            minifb::Key::Right => MiniFBKey::Right,
            minifb::Key::Up => MiniFBKey::Up,
            minifb::Key::Apostrophe => MiniFBKey::Apostrophe,
            minifb::Key::Backquote => MiniFBKey::Backquote,
            minifb::Key::Backslash => MiniFBKey::Backslash,
            minifb::Key::Comma => MiniFBKey::Comma,
            minifb::Key::Equal => MiniFBKey::Equal,
            minifb::Key::LeftBracket => MiniFBKey::LeftBracket,
            minifb::Key::Minus => MiniFBKey::Minus,
            minifb::Key::Period => MiniFBKey::Period,
            minifb::Key::RightBracket => MiniFBKey::RightBracket,
            minifb::Key::Semicolon => MiniFBKey::Semicolon,
            minifb::Key::Slash => MiniFBKey::Slash,
            minifb::Key::Backspace => MiniFBKey::Backspace,
            minifb::Key::Delete => MiniFBKey::Delete,
            minifb::Key::End => MiniFBKey::End,
            minifb::Key::Enter => MiniFBKey::Enter,
            minifb::Key::Escape => MiniFBKey::Escape,
            minifb::Key::Home => MiniFBKey::Home,
            minifb::Key::Insert => MiniFBKey::Insert,
            minifb::Key::Menu => MiniFBKey::Menu,
            minifb::Key::PageDown => MiniFBKey::PageDown,
            minifb::Key::PageUp => MiniFBKey::PageUp,
            minifb::Key::Pause => MiniFBKey::Pause,
            minifb::Key::Space => MiniFBKey::Space,
            minifb::Key::Tab => MiniFBKey::Tab,
            minifb::Key::NumLock => MiniFBKey::NumLock,
            minifb::Key::CapsLock => MiniFBKey::CapsLock,
            minifb::Key::ScrollLock => MiniFBKey::ScrollLock,
            minifb::Key::LeftShift => MiniFBKey::LeftShift,
            minifb::Key::RightShift => MiniFBKey::RightShift,
            minifb::Key::LeftCtrl => MiniFBKey::LeftCtrl,
            minifb::Key::RightCtrl => MiniFBKey::RightCtrl,
            minifb::Key::NumPad0 => MiniFBKey::NumPad0,
            minifb::Key::NumPad1 => MiniFBKey::NumPad1,
            minifb::Key::NumPad2 => MiniFBKey::NumPad2,
            minifb::Key::NumPad3 => MiniFBKey::NumPad3,
            minifb::Key::NumPad4 => MiniFBKey::NumPad4,
            minifb::Key::NumPad5 => MiniFBKey::NumPad5,
            minifb::Key::NumPad6 => MiniFBKey::NumPad6,
            minifb::Key::NumPad7 => MiniFBKey::NumPad7,
            minifb::Key::NumPad8 => MiniFBKey::NumPad8,
            minifb::Key::NumPad9 => MiniFBKey::NumPad9,
            minifb::Key::NumPadDot => MiniFBKey::NumPadDot,
            minifb::Key::NumPadSlash => MiniFBKey::NumPadSlash,
            minifb::Key::NumPadAsterisk => MiniFBKey::NumPadAsterisk,
            minifb::Key::NumPadMinus => MiniFBKey::NumPadMinus,
            minifb::Key::NumPadPlus => MiniFBKey::NumPadPlus,
            minifb::Key::NumPadEnter => MiniFBKey::NumPadEnter,
            minifb::Key::LeftAlt => MiniFBKey::LeftAlt,
            minifb::Key::RightAlt => MiniFBKey::RightAlt,
            minifb::Key::LeftSuper => MiniFBKey::LeftSuper,
            minifb::Key::RightSuper => MiniFBKey::RightSuper,
            minifb::Key::Unknown | minifb::Key::Count => MiniFBKey::Unknown,
        }
    }

    /// Whether this is a key that can be pressed, that is any variant but the
    /// `Count` bound.
    pub open spec fn is_real(self) -> bool {
        self != MiniFBKey::Count
    }

    /// The wire code of this key.
    pub fn code(self) -> (c: i32)
        ensures
            c == self.wire_code(),
    {
        match self {
            MiniFBKey::Key0 => 0,
            MiniFBKey::Key1 => 1,
            MiniFBKey::Key2 => 2,
            MiniFBKey::Key3 => 3,
            MiniFBKey::Key4 => 4,
            MiniFBKey::Key5 => 5,
            MiniFBKey::Key6 => 6,
            MiniFBKey::Key7 => 7,
            MiniFBKey::Key8 => 8,
            MiniFBKey::Key9 => 9,
            MiniFBKey::A => 10,
            MiniFBKey::B => 11,
            MiniFBKey::C => 12,
            MiniFBKey::D => 13,
            MiniFBKey::E => 14,
            MiniFBKey::F => 15,
            MiniFBKey::G => 16,
            MiniFBKey::H => 17,
            MiniFBKey::I => 18,
            MiniFBKey::J => 19,
            MiniFBKey::K => 20,
            MiniFBKey::L => 21,
            MiniFBKey::M => 22,
            MiniFBKey::N => 23,
            MiniFBKey::O => 24,
            MiniFBKey::P => 25,
            MiniFBKey::Q => 26,
            MiniFBKey::R => 27,
            MiniFBKey::S => 28,
            MiniFBKey::T => 29,
            MiniFBKey::U => 30,
            MiniFBKey::V => 31,
            MiniFBKey::W => 32,
            MiniFBKey::X => 33,
            MiniFBKey::Y => 34,
            MiniFBKey::Z => 35,
            MiniFBKey::F1 => 36,
            MiniFBKey::F2 => 37,
            MiniFBKey::F3 => 38,
            MiniFBKey::F4 => 39,
            MiniFBKey::F5 => 40,
            MiniFBKey::F6 => 41,
            MiniFBKey::F7 => 42,
            MiniFBKey::F8 => 43,
            MiniFBKey::F9 => 44,
            MiniFBKey::F10 => 45,
            MiniFBKey::F11 => 46,
            MiniFBKey::F12 => 47,
            MiniFBKey::F13 => 48,
            MiniFBKey::F14 => 49,
            MiniFBKey::F15 => 50,
            MiniFBKey::Down => 51,
            MiniFBKey::Left => 52,
            MiniFBKey::Right => 53,
            MiniFBKey::Up => 54,
            MiniFBKey::Apostrophe => 55,
            MiniFBKey::Backquote => 56,
            MiniFBKey::Backslash => 57,
            MiniFBKey::Comma => 58,
            MiniFBKey::Equal => 59,
            MiniFBKey::LeftBracket => 60,
            MiniFBKey::Minus => 61,
            MiniFBKey::Period => 62,
            MiniFBKey::RightBracket => 63,
            MiniFBKey::Semicolon => 64,
            MiniFBKey::Slash => 65,
            MiniFBKey::Backspace => 66,
            MiniFBKey::Delete => 67,
            MiniFBKey::End => 68,
            MiniFBKey::Enter => 69,
            MiniFBKey::Escape => 70,
            MiniFBKey::Home => 71,
            MiniFBKey::Insert => 72,
            MiniFBKey::Menu => 73,
            MiniFBKey::PageDown => 74,
            MiniFBKey::PageUp => 75,
            MiniFBKey::Pause => 76,
            MiniFBKey::Space => 77,
            MiniFBKey::Tab => 78,
            MiniFBKey::NumLock => 79,
            MiniFBKey::CapsLock => 80,
            MiniFBKey::ScrollLock => 81,
            MiniFBKey::LeftShift => 82,
            MiniFBKey::RightShift => 83,
            MiniFBKey::LeftCtrl => 84,
            MiniFBKey::RightCtrl => 85,
            MiniFBKey::NumPad0 => 86,
            MiniFBKey::NumPad1 => 87,
            MiniFBKey::NumPad2 => 88,
            MiniFBKey::NumPad3 => 89,
            MiniFBKey::NumPad4 => 90,
            MiniFBKey::NumPad5 => 91,
            MiniFBKey::NumPad6 => 92,
            MiniFBKey::NumPad7 => 93,
            MiniFBKey::NumPad8 => 94,
            MiniFBKey::NumPad9 => 95,
            MiniFBKey::NumPadDot => 96,
            MiniFBKey::NumPadSlash => 97,
            MiniFBKey::NumPadAsterisk => 98,
            MiniFBKey::NumPadMinus => 99,
            MiniFBKey::NumPadPlus => 100,
            MiniFBKey::NumPadEnter => 101,
            MiniFBKey::LeftAlt => 102,
            MiniFBKey::RightAlt => 103,
            MiniFBKey::LeftSuper => 104,
            MiniFBKey::RightSuper => 105,
            MiniFBKey::Unknown => 106,
            MiniFBKey::Count => 107,
        }
    }

    /// Reads a wire code. Codes outside the enumeration name no key.
    pub fn from_code(code: i32) -> (key: Option<MiniFBKey>)
        ensures
            key == MiniFBKey::of_code(code),
            key is Some <==> 0 <= code <= MiniFBKey::Count.wire_code(),
            key matches Some(k) ==> k.wire_code() == code,
    {
        match code {
            0 => Some(MiniFBKey::Key0),
            1 => Some(MiniFBKey::Key1),
            2 => Some(MiniFBKey::Key2),
            3 => Some(MiniFBKey::Key3),
            4 => Some(MiniFBKey::Key4),
            5 => Some(MiniFBKey::Key5),
            6 => Some(MiniFBKey::Key6),
            7 => Some(MiniFBKey::Key7),
            8 => Some(MiniFBKey::Key8),
            9 => Some(MiniFBKey::Key9),
            10 => Some(MiniFBKey::A),
            11 => Some(MiniFBKey::B),
            12 => Some(MiniFBKey::C),
            13 => Some(MiniFBKey::D),
            14 => Some(MiniFBKey::E),
            15 => Some(MiniFBKey::F),
            16 => Some(MiniFBKey::G),
            17 => Some(MiniFBKey::H),
            18 => Some(MiniFBKey::I),
            19 => Some(MiniFBKey::J),
            20 => Some(MiniFBKey::K),
            21 => Some(MiniFBKey::L),
            22 => Some(MiniFBKey::M),
            23 => Some(MiniFBKey::N),
            24 => Some(MiniFBKey::O),
            25 => Some(MiniFBKey::P),
            26 => Some(MiniFBKey::Q),
            27 => Some(MiniFBKey::R),
            28 => Some(MiniFBKey::S),
            29 => Some(MiniFBKey::T),
            30 => Some(MiniFBKey::U),
            31 => Some(MiniFBKey::V),
            32 => Some(MiniFBKey::W),
            33 => Some(MiniFBKey::X),
            34 => Some(MiniFBKey::Y),
            35 => Some(MiniFBKey::Z),
            36 => Some(MiniFBKey::F1),
            37 => Some(MiniFBKey::F2),
            38 => Some(MiniFBKey::F3),
            39 => Some(MiniFBKey::F4),
            40 => Some(MiniFBKey::F5),
            41 => Some(MiniFBKey::F6),
            42 => Some(MiniFBKey::F7),
            43 => Some(MiniFBKey::F8),
            44 => Some(MiniFBKey::F9),
            45 => Some(MiniFBKey::F10),
            46 => Some(MiniFBKey::F11),
            47 => Some(MiniFBKey::F12),
            48 => Some(MiniFBKey::F13),
            49 => Some(MiniFBKey::F14),
            50 => Some(MiniFBKey::F15),
            51 => Some(MiniFBKey::Down),
            52 => Some(MiniFBKey::Left),
            53 => Some(MiniFBKey::Right),
            54 => Some(MiniFBKey::Up),
            55 => Some(MiniFBKey::Apostrophe),
            56 => Some(MiniFBKey::Backquote),
            57 => Some(MiniFBKey::Backslash),
            58 => Some(MiniFBKey::Comma),
            59 => Some(MiniFBKey::Equal),
            60 => Some(MiniFBKey::LeftBracket),
            61 => Some(MiniFBKey::Minus),
            62 => Some(MiniFBKey::Period),
            63 => Some(MiniFBKey::RightBracket),
            64 => Some(MiniFBKey::Semicolon),
            65 => Some(MiniFBKey::Slash),
            66 => Some(MiniFBKey::Backspace),
            67 => Some(MiniFBKey::Delete),
            68 => Some(MiniFBKey::End),
            69 => Some(MiniFBKey::Enter),
            70 => Some(MiniFBKey::Escape),
            71 => Some(MiniFBKey::Home),
            72 => Some(MiniFBKey::Insert),
            73 => Some(MiniFBKey::Menu),
            74 => Some(MiniFBKey::PageDown),
            75 => Some(MiniFBKey::PageUp),
            76 => Some(MiniFBKey::Pause),
            77 => Some(MiniFBKey::Space),
            78 => Some(MiniFBKey::Tab),
            79 => Some(MiniFBKey::NumLock),
            80 => Some(MiniFBKey::CapsLock),
            81 => Some(MiniFBKey::ScrollLock),
            82 => Some(MiniFBKey::LeftShift),
            83 => Some(MiniFBKey::RightShift),
            84 => Some(MiniFBKey::LeftCtrl),
            85 => Some(MiniFBKey::RightCtrl),
            86 => Some(MiniFBKey::NumPad0),
            87 => Some(MiniFBKey::NumPad1),
            88 => Some(MiniFBKey::NumPad2),
            89 => Some(MiniFBKey::NumPad3),
            90 => Some(MiniFBKey::NumPad4),
            91 => Some(MiniFBKey::NumPad5),
            92 => Some(MiniFBKey::NumPad6),
            93 => Some(MiniFBKey::NumPad7),
            94 => Some(MiniFBKey::NumPad8),
            95 => Some(MiniFBKey::NumPad9),
            96 => Some(MiniFBKey::NumPadDot),
            97 => Some(MiniFBKey::NumPadSlash),
            98 => Some(MiniFBKey::NumPadAsterisk),
            99 => Some(MiniFBKey::NumPadMinus),
            100 => Some(MiniFBKey::NumPadPlus),
            101 => Some(MiniFBKey::NumPadEnter),
            102 => Some(MiniFBKey::LeftAlt),
            103 => Some(MiniFBKey::RightAlt),
            104 => Some(MiniFBKey::LeftSuper),
            105 => Some(MiniFBKey::RightSuper),
            106 => Some(MiniFBKey::Unknown),
            107 => Some(MiniFBKey::Count),
            _ => None,
        }
    }

    /// Translates this wire key to the native key it names.
    pub fn to_minifb(self) -> (key: minifb::Key)
        ensures
            key == self.native(),
    {
        match self {
            MiniFBKey::Key0 => minifb::Key::Key0,
            MiniFBKey::Key1 => minifb::Key::Key1,
            MiniFBKey::Key2 => minifb::Key::Key2,
            MiniFBKey::Key3 => minifb::Key::Key3,
            MiniFBKey::Key4 => minifb::Key::Key4,
            MiniFBKey::Key5 => minifb::Key::Key5,
            MiniFBKey::Key6 => minifb::Key::Key6,
            MiniFBKey::Key7 => minifb::Key::Key7,
            MiniFBKey::Key8 => minifb::Key::Key8,
            MiniFBKey::Key9 => minifb::Key::Key9,
            MiniFBKey::A => minifb::Key::A,
            MiniFBKey::B => minifb::Key::B,
            MiniFBKey::C => minifb::Key::C,
            MiniFBKey::D => minifb::Key::D,
            MiniFBKey::E => minifb::Key::E,
            MiniFBKey::F => minifb::Key::F,
            MiniFBKey::G => minifb::Key::G,
            MiniFBKey::H => minifb::Key::H,
            MiniFBKey::I => minifb::Key::I,
            MiniFBKey::J => minifb::Key::J,
            MiniFBKey::K => minifb::Key::K,
            MiniFBKey::L => minifb::Key::L,
            MiniFBKey::M => minifb::Key::M,
            MiniFBKey::N => minifb::Key::N,
            MiniFBKey::O => minifb::Key::O,
            MiniFBKey::P => minifb::Key::P,
            MiniFBKey::Q => minifb::Key::Q,
            MiniFBKey::R => minifb::Key::R,
            MiniFBKey::S => minifb::Key::S,
            MiniFBKey::T => minifb::Key::T,
            MiniFBKey::U => minifb::Key::U,
            MiniFBKey::V => minifb::Key::V,
            MiniFBKey::W => minifb::Key::W,
            MiniFBKey::X => minifb::Key::X,
            MiniFBKey::Y => minifb::Key::Y,
            MiniFBKey::Z => minifb::Key::Z,
            MiniFBKey::F1 => minifb::Key::F1,
            MiniFBKey::F2 => minifb::Key::F2,
            MiniFBKey::F3 => minifb::Key::F3,
            MiniFBKey::F4 => minifb::Key::F4,
            MiniFBKey::F5 => minifb::Key::F5,
            MiniFBKey::F6 => minifb::Key::F6,
            MiniFBKey::F7 => minifb::Key::F7,
            MiniFBKey::F8 => minifb::Key::F8,
            MiniFBKey::F9 => minifb::Key::F9,
            MiniFBKey::F10 => minifb::Key::F10,
            MiniFBKey::F11 => minifb::Key::F11,
            MiniFBKey::F12 => minifb::Key::F12,
            MiniFBKey::F13 => minifb::Key::F13,
            MiniFBKey::F14 => minifb::Key::F14,
            MiniFBKey::F15 => minifb::Key::F15,
            MiniFBKey::Down => minifb::Key::Down,
            MiniFBKey::Left => minifb::Key::Left,
            MiniFBKey::Right => minifb::Key::Right,
            MiniFBKey::Up => minifb::Key::Up,
            MiniFBKey::Apostrophe => minifb::Key::Apostrophe,
            MiniFBKey::Backquote => minifb::Key::Backquote,
            MiniFBKey::Backslash => minifb::Key::Backslash,
            MiniFBKey::Comma => minifb::Key::Comma,
            MiniFBKey::Equal => minifb::Key::Equal,
            MiniFBKey::LeftBracket => minifb::Key::LeftBracket,
            MiniFBKey::Minus => minifb::Key::Minus,
            MiniFBKey::Period => minifb::Key::Period,
            MiniFBKey::RightBracket => minifb::Key::RightBracket,
            MiniFBKey::Semicolon => minifb::Key::Semicolon,
            MiniFBKey::Slash => minifb::Key::Slash,
            MiniFBKey::Backspace => minifb::Key::Backspace,
            MiniFBKey::Delete => minifb::Key::Delete,
            MiniFBKey::End => minifb::Key::End,
            MiniFBKey::Enter => minifb::Key::Enter,
            MiniFBKey::Escape => minifb::Key::Escape,
            MiniFBKey::Home => minifb::Key::Home,
            MiniFBKey::Insert => minifb::Key::Insert,
            MiniFBKey::Menu => minifb::Key::Menu,
            MiniFBKey::PageDown => minifb::Key::PageDown,
            MiniFBKey::PageUp => minifb::Key::PageUp,
            MiniFBKey::Pause => minifb::Key::Pause,
            MiniFBKey::Space => minifb::Key::Space,
            MiniFBKey::Tab => minifb::Key::Tab,
            MiniFBKey::NumLock => minifb::Key::NumLock,
            MiniFBKey::CapsLock => minifb::Key::CapsLock,
            MiniFBKey::ScrollLock => minifb::Key::ScrollLock,
            MiniFBKey::LeftShift => minifb::Key::LeftShift,
            MiniFBKey::RightShift => minifb::Key::RightShift,
            MiniFBKey::LeftCtrl => minifb::Key::LeftCtrl,
            MiniFBKey::RightCtrl => minifb::Key::RightCtrl,
            MiniFBKey::NumPad0 => minifb::Key::NumPad0,
            MiniFBKey::NumPad1 => minifb::Key::NumPad1,
            MiniFBKey::NumPad2 => minifb::Key::NumPad2,
            MiniFBKey::NumPad3 => minifb::Key::NumPad3,
            MiniFBKey::NumPad4 => minifb::Key::NumPad4,
            MiniFBKey::NumPad5 => minifb::Key::NumPad5,
            MiniFBKey::NumPad6 => minifb::Key::NumPad6,
            MiniFBKey::NumPad7 => minifb::Key::NumPad7,
            MiniFBKey::NumPad8 => minifb::Key::NumPad8,
            MiniFBKey::NumPad9 => minifb::Key::NumPad9,
            MiniFBKey::NumPadDot => minifb::Key::NumPadDot,
            MiniFBKey::NumPadSlash => minifb::Key::NumPadSlash,
            MiniFBKey::NumPadAsterisk => minifb::Key::NumPadAsterisk,
            MiniFBKey::NumPadMinus => minifb::Key::NumPadMinus,
            MiniFBKey::NumPadPlus => minifb::Key::NumPadPlus,
            MiniFBKey::NumPadEnter => minifb::Key::NumPadEnter,
            MiniFBKey::LeftAlt => minifb::Key::LeftAlt,
            MiniFBKey::RightAlt => minifb::Key::RightAlt,
            MiniFBKey::LeftSuper => minifb::Key::LeftSuper,
            MiniFBKey::RightSuper => minifb::Key::RightSuper,
            MiniFBKey::Unknown | MiniFBKey::Count => minifb::Key::Unknown,
        }
    }

    /// Translates a native key to the wire key that reports it.
    pub fn from_minifb(key: minifb::Key) -> (k: MiniFBKey)
        ensures
            k == MiniFBKey::of_native(key),
    {
        match key {
            minifb::Key::Key0 => MiniFBKey::Key0,
            minifb::Key::Key1 => MiniFBKey::Key1,
            minifb::Key::Key2 => MiniFBKey::Key2,
            minifb::Key::Key3 => MiniFBKey::Key3,
            minifb::Key::Key4 => MiniFBKey::Key4,
            minifb::Key::Key5 => MiniFBKey::Key5,
            minifb::Key::Key6 => MiniFBKey::Key6,
            minifb::Key::Key7 => MiniFBKey::Key7,
            minifb::Key::Key8 => MiniFBKey::Key8,
            minifb::Key::Key9 => MiniFBKey::Key9,
            minifb::Key::A => MiniFBKey::A,
            minifb::Key::B => MiniFBKey::B,
            minifb::Key::C => MiniFBKey::C,
            minifb::Key::D => MiniFBKey::D,
            minifb::Key::E => MiniFBKey::E,
            minifb::Key::F => MiniFBKey::F,
            minifb::Key::G => MiniFBKey::G,
            minifb::Key::H => MiniFBKey::H,
            minifb::Key::I => MiniFBKey::I,
            minifb::Key::J => MiniFBKey::J,
            minifb::Key::K => MiniFBKey::K,
            minifb::Key::L => MiniFBKey::L,
            minifb::Key::M => MiniFBKey::M,
            minifb::Key::N => MiniFBKey::N,
            minifb::Key::O => MiniFBKey::O,
            minifb::Key::P => MiniFBKey::P,
            minifb::Key::Q => MiniFBKey::Q,
            minifb::Key::R => MiniFBKey::R,
            minifb::Key::S => MiniFBKey::S,
            minifb::Key::T => MiniFBKey::T,
            minifb::Key::U => MiniFBKey::U,
            minifb::Key::V => MiniFBKey::V,
            minifb::Key::W => MiniFBKey::W,
            minifb::Key::X => MiniFBKey::X,
            minifb::Key::Y => MiniFBKey::Y,
            minifb::Key::Z => MiniFBKey::Z,
            minifb::Key::F1 => MiniFBKey::F1,
            minifb::Key::F2 => MiniFBKey::F2,
            minifb::Key::F3 => MiniFBKey::F3,
            minifb::Key::F4 => MiniFBKey::F4,
            minifb::Key::F5 => MiniFBKey::F5,
            minifb::Key::F6 => MiniFBKey::F6,
            minifb::Key::F7 => MiniFBKey::F7,
            minifb::Key::F8 => MiniFBKey::F8,
            minifb::Key::F9 => MiniFBKey::F9,
            minifb::Key::F10 => MiniFBKey::F10,
            minifb::Key::F11 => MiniFBKey::F11,
            minifb::Key::F12 => MiniFBKey::F12,
            minifb::Key::F13 => MiniFBKey::F13,
            minifb::Key::F14 => MiniFBKey::F14,
            minifb::Key::F15 => MiniFBKey::F15,
            minifb::Key::Down => MiniFBKey::Down,
            minifb::Key::Left => MiniFBKey::Left,
            minifb::Key::Right => MiniFBKey::Right,
            minifb::Key::Up => MiniFBKey::Up,
            minifb::Key::Apostrophe => MiniFBKey::Apostrophe,
            minifb::Key::Backquote => MiniFBKey::Backquote,
            minifb::Key::Backslash => MiniFBKey::Backslash,
            minifb::Key::Comma => MiniFBKey::Comma,
            minifb::Key::Equal => MiniFBKey::Equal,
            minifb::Key::LeftBracket => MiniFBKey::LeftBracket,
            minifb::Key::Minus => MiniFBKey::Minus,
            minifb::Key::Period => MiniFBKey::Period,
            minifb::Key::RightBracket => MiniFBKey::RightBracket,
            minifb::Key::Semicolon => MiniFBKey::Semicolon,
            minifb::Key::Slash => MiniFBKey::Slash,
            minifb::Key::Backspace => MiniFBKey::Backspace,
            minifb::Key::Delete => MiniFBKey::Delete,
            minifb::Key::End => MiniFBKey::End,
            minifb::Key::Enter => MiniFBKey::Enter,
            minifb::Key::Escape => MiniFBKey::Escape,
            minifb::Key::Home => MiniFBKey::Home,
            minifb::Key::Insert => MiniFBKey::Insert,
            minifb::Key::Menu => MiniFBKey::Menu,
            minifb::Key::PageDown => MiniFBKey::PageDown,
            minifb::Key::PageUp => MiniFBKey::PageUp,
            minifb::Key::Pause => MiniFBKey::Pause,
            minifb::Key::Space => MiniFBKey::Space,
            minifb::Key::Tab => MiniFBKey::Tab,
            minifb::Key::NumLock => MiniFBKey::NumLock,
            minifb::Key::CapsLock => MiniFBKey::CapsLock,
            minifb::Key::ScrollLock => MiniFBKey::ScrollLock,
            minifb::Key::LeftShift => MiniFBKey::LeftShift,
            minifb::Key::RightShift => MiniFBKey::RightShift,
            minifb::Key::LeftCtrl => MiniFBKey::LeftCtrl,
            minifb::Key::RightCtrl => MiniFBKey::RightCtrl,
            minifb::Key::NumPad0 => MiniFBKey::NumPad0,
            minifb::Key::NumPad1 => MiniFBKey::NumPad1,
            minifb::Key::NumPad2 => MiniFBKey::NumPad2,
            minifb::Key::NumPad3 => MiniFBKey::NumPad3,
            minifb::Key::NumPad4 => MiniFBKey::NumPad4,
            minifb::Key::NumPad5 => MiniFBKey::NumPad5,
            minifb::Key::NumPad6 => MiniFBKey::NumPad6,
            minifb::Key::NumPad7 => MiniFBKey::NumPad7,
            minifb::Key::NumPad8 => MiniFBKey::NumPad8,
            minifb::Key::NumPad9 => MiniFBKey::NumPad9,
            minifb::Key::NumPadDot => MiniFBKey::NumPadDot,
            minifb::Key::NumPadSlash => MiniFBKey::NumPadSlash,
            minifb::Key::NumPadAsterisk => MiniFBKey::NumPadAsterisk,
            minifb::Key::NumPadMinus => MiniFBKey::NumPadMinus,
            minifb::Key::NumPadPlus => MiniFBKey::NumPadPlus,
            minifb::Key::NumPadEnter => MiniFBKey::NumPadEnter,
            minifb::Key::LeftAlt => MiniFBKey::LeftAlt,
            minifb::Key::RightAlt => MiniFBKey::RightAlt,
            minifb::Key::LeftSuper => MiniFBKey::LeftSuper,
            minifb::Key::RightSuper => MiniFBKey::RightSuper,
            minifb::Key::Unknown | minifb::Key::Count => MiniFBKey::Unknown,
        }
    }
}

/// A native key that is translated to the wire and back is unchanged, for
/// every native key but the `Count` bound.
pub proof fn lemma_native_round_trip(key: minifb::Key)
    requires
        key != minifb::Key::Count,
    ensures
        MiniFBKey::of_native(key).native() == key,
{
}

/// A wire key that is translated to the native side and back is unchanged,
/// for every wire key but the `Count` bound.
pub proof fn lemma_wire_round_trip(key: MiniFBKey)
    requires
        key.is_real(),
    ensures
        MiniFBKey::of_native(key.native()) == key,
{
}

/// The `Count` bound is translated inward as `Unknown` is, in both
/// directions.
pub proof fn lemma_count_collapses_to_unknown()
    ensures
        MiniFBKey::Count.native() == MiniFBKey::Unknown.native(),
        MiniFBKey::Count.native() == minifb::Key::Unknown,
        MiniFBKey::of_native(minifb::Key::Count) == MiniFBKey::of_native(minifb::Key::Unknown),
        MiniFBKey::of_native(minifb::Key::Count) == MiniFBKey::Unknown,
{
}

/// No translated key is the `Count` bound.
pub proof fn lemma_translation_is_real(wire: MiniFBKey, key: minifb::Key)
    ensures
        wire.native() != minifb::Key::Count,
        MiniFBKey::of_native(key).is_real(),
{
}

/// Two real keys that name the same native key are the same key.
pub proof fn lemma_native_injective(a: MiniFBKey, b: MiniFBKey)
    requires
        a.is_real(),
        b.is_real(),
        a.native() == b.native(),
    ensures
        a == b,
{
}

/// A key is the one that its own wire code names, and a code names a key
/// exactly when it is the wire code of one.
pub proof fn lemma_code_round_trip(key: MiniFBKey, code: i32)
    ensures
        MiniFBKey::of_code(key.wire_code() as i32) == Some(key),
        MiniFBKey::of_code(code) is Some <==> 0 <= code <= MiniFBKey::Count.wire_code(),
        MiniFBKey::of_code(code) matches Some(k) ==> k.wire_code() == code,
{
}

/// Wire codes run from zero to the code of `Count`, and no two keys share
/// one.
pub proof fn lemma_wire_code_injective(a: MiniFBKey, b: MiniFBKey)
    ensures
        0 <= a.wire_code() <= MiniFBKey::Count.wire_code(),
        MiniFBKey::Count.wire_code() == 107,
        a.wire_code() == b.wire_code() ==> a == b,
{
}

} // verus!
