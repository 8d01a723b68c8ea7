//! Events of the window system, in the runtime's own terms.

use vstd::prelude::*;

verus! {

/// Scancode that stands for no key: one past the largest the window system
/// gives out.
pub const SCANCODE_COUNT: i32 = 512;

/// Kind code of the event that asks the program to quit.
pub const EVENT_QUIT: i32 = 0x100;

/// Kind code of an event about the window itself.
pub const EVENT_WINDOW: i32 = 0x200;

/// Kind code of a key going down.
pub const EVENT_KEY_DOWN: i32 = 0x300;

/// Kind code of a key going up.
pub const EVENT_KEY_UP: i32 = 0x301;

/// Code of the window event that reports a new size.
pub const WINDOW_EVENT_RESIZED: u8 = 5;

/// A physical key, named by its place on a US keyboard.
#[derive(Clone, Copy, Debug, PartialEq, Eq, Structural)]
pub enum Key {
    A,
    B,
    C,
    D,
    E,
    F,
    G,
    H,
    I,
    J,
    K,
    L,
    M,
    N,
    O,
    P,
    Q,
    R,
    S,
    T,
    U,
    V,
    W,
    X,
    Y,
    Z,
    _1,
    _2,
    _3,
    _4,
    _5,
    _6,
    _7,
    _8,
    _9,
    _0,
    Return,
    Escape,
    Backspace,
    Tab,
    Space,
    Minus,
    Equals,
    LeftBracket,
    RightBracket,
    Backslash,
    Grave,
    Comma,
    Period,
    Slash,
    Caps,
    F1,
    F2,
    F3,
    F4,
    F5,
    F6,
    F7,
    F8,
    F9,
    F10,
    F11,
    F12,
    PrintScreen,
    ScrollLock,
    Pause,
    Insert,
    Home,
    PageUp,
    Delete,
    End,
    PageDown,
    Right,
    Left,
    Down,
    Up,
    NumLock,
    NumpadDivide,
    NumpadMultiply,
    NumpadMinus,
    NumpadPlus,
    NumpadEnter,
    Numpad1,
    Numpad2,
    Numpad3,
    Numpad4,
    Numpad5,
    Numpad6,
    Numpad7,
    Numpad8,
    Numpad9,
    Numpad0,
    NumpadPeriod,
    LeftControl,
    LeftShift,
    LeftAlt,
    LeftSuper,
    RightControl,
    RightShift,
    RightAlt,
    RightSuper,
    /// Any key that has no name here.
    Unknown,
}

impl Key {
    /// The scancode by which the window system reports this key. Scancodes
    /// follow the USB keyboard usage page and do not depend on the layout.
    pub open spec fn scancode(self) -> int {
        match self {
            Key::A => 4,
            Key::B => 5,
            Key::C => 6,
            Key::D => 7,
            Key::E => 8,
            Key::F => 9,
            Key::G => 10,
            Key::H => 11,
            Key::I => 12,
            Key::J => 13,
            Key::K => 14,
            Key::L => 15,
            Key::M => 16,
            Key::N => 17,
            Key::O => 18,
            Key::P => 19,
            Key::Q => 20,
            Key::R => 21,
            Key::S => 22,
            Key::T => 23,
            Key::U => 24,
            Key::V => 25,
            Key::W => 26,
            Key::X => 27,
            Key::Y => 28,
            Key::Z => 29,
            Key::_1 => 30,
            Key::_2 => 31,
            Key::_3 => 32,
            Key::_4 => 33,
            Key::_5 => 34,
            Key::_6 => 35,
            Key::_7 => 36,
            Key::_8 => 37,
            Key::_9 => 38,
            Key::_0 => 39,
            Key::Return => 40,
            Key::Escape => 41,
            Key::Backspace => 42,
            Key::Tab => 43,
            Key::Space => 44,
            Key::Minus => 45,
            Key::Equals => 46,
            Key::LeftBracket => 47,
            Key::RightBracket => 48,
            Key::Backslash => 49,
            Key::Grave => 53,
            Key::Comma => 54,
            Key::Period => 55,
            Key::Slash => 56,
            Key::Caps => 57,
            Key::F1 => 58,
            Key::F2 => 59,
            Key::F3 => 60,
            Key::F4 => 61,
            Key::F5 => 62,
            Key::F6 => 63,
            Key::F7 => 64,
            Key::F8 => 65,
            Key::F9 => 66,
            Key::F10 => 67,
            Key::F11 => 68,
            Key::F12 => 69,
            Key::PrintScreen => 70,
            Key::ScrollLock => 71,
            Key::Pause => 72,
            Key::Insert => 73,
            Key::Home => 74,
            Key::PageUp => 75,
            Key::Delete => 76,
            Key::End => 77,
            Key::PageDown => 78,
            Key::Right => 79,
            Key::Left => 80,
            Key::Down => 81,
            Key::Up => 82,
            Key::NumLock => 83,
            Key::NumpadDivide => 84,
            Key::NumpadMultiply => 85,
            Key::NumpadMinus => 86,
            Key::NumpadPlus => 87,
            Key::NumpadEnter => 88,
            Key::Numpad1 => 89,
            Key::Numpad2 => 90,
            Key::Numpad3 => 91,
            Key::Numpad4 => 92,
            Key::Numpad5 => 93,
            Key::Numpad6 => 94,
            Key::Numpad7 => 95,
            Key::Numpad8 => 96,
            Key::Numpad9 => 97,
            Key::Numpad0 => 98,
            Key::NumpadPeriod => 99,
            Key::LeftControl => 224,
            Key::LeftShift => 225,
            Key::LeftAlt => 226,
            Key::LeftSuper => 227,
            Key::RightControl => 228,
            Key::RightShift => 229,
            Key::RightAlt => 230,
            Key::RightSuper => 231,
            Key::Unknown => SCANCODE_COUNT as int,
        }
    }

    /// The key that `scancode` stands for: the one with that scancode, and
    /// `Unknown` where no key has it.
    pub open spec fn of_scancode(scancode: int) -> Key {
        if exists|k: Key| k.scancode() == scancode {
            choose|k: Key| k.scancode() == scancode
        } else {
            Key::Unknown
        }
    }

    /// No two keys share a scancode.
    pub proof fn lemma_scancode_injective(a: Key, b: Key)
        requires
            a.scancode() == b.scancode(),
        ensures
            a == b,
    {
    }

    /// Every key is found again from its own scancode.
    pub proof fn lemma_of_scancode_inverts(k: Key)
        ensures
            Key::of_scancode(k.scancode()) == k,
    {
        let found = Key::of_scancode(k.scancode());
        Key::lemma_scancode_injective(found, k);
    }

    /// The key that a scancode of the window system stands for.
    pub fn from_sdl_scancode(scancode: i32) -> (key: Key)
        ensures
            key == Key::of_scancode(scancode as int),
    {
        let key = match scancode {
            4 => Key::A,
            5 => Key::B,
            6 => Key::C,
            7 => Key::D,
            8 => Key::E,
            9 => Key::F,
            10 => Key::G,
            11 => Key::H,
            12 => Key::I,
            13 => Key::J,
            14 => Key::K,
            15 => Key::L,
            16 => Key::M,
            17 => Key::N,
            18 => Key::O,
            19 => Key::P,
            20 => Key::Q,
            21 => Key::R,
            22 => Key::S,
            23 => Key::T,
            24 => Key::U,
            25 => Key::V,
            26 => Key::W,
            27 => Key::X,
            28 => Key::Y,
            29 => Key::Z,
            30 => Key::_1,
            31 => Key::_2,
            32 => Key::_3,
            33 => Key::_4,
            34 => Key::_5,
            35 => Key::_6,
            36 => Key::_7,
            37 => Key::_8,
            38 => Key::_9,
            39 => Key::_0,
            40 => Key::Return,
            41 => Key::Escape,
            42 => Key::Backspace,
            43 => Key::Tab,
            44 => Key::Space,
            45 => Key::Minus,
            46 => Key::Equals,
            47 => Key::LeftBracket,
            48 => Key::RightBracket,
            49 => Key::Backslash,
            53 => Key::Grave,
            54 => Key::Comma,
            55 => Key::Period,
            56 => Key::Slash,
            57 => Key::Caps,
            58 => Key::F1,
            59 => Key::F2,
            60 => Key::F3,
            61 => Key::F4,
            62 => Key::F5,
            63 => Key::F6,
            64 => Key::F7,
            65 => Key::F8,
            66 => Key::F9,
            67 => Key::F10,
            68 => Key::F11,
            69 => Key::F12,
            70 => Key::PrintScreen,
            71 => Key::ScrollLock,
            72 => Key::Pause,
            73 => Key::Insert,
            74 => Key::Home,
            75 => Key::PageUp,
            76 => Key::Delete,
            77 => Key::End,
            78 => Key::PageDown,
            79 => Key::Right,
            80 => Key::Left,
            81 => Key::Down,
            82 => Key::Up,
            83 => Key::NumLock,
            84 => Key::NumpadDivide,
            85 => Key::NumpadMultiply,
            86 => Key::NumpadMinus,
            87 => Key::NumpadPlus,
            88 => Key::NumpadEnter,
            89 => Key::Numpad1,
            90 => Key::Numpad2,
            91 => Key::Numpad3,
            92 => Key::Numpad4,
            93 => Key::Numpad5,
            94 => Key::Numpad6,
            95 => Key::Numpad7,
            96 => Key::Numpad8,
            97 => Key::Numpad9,
            98 => Key::Numpad0,
            99 => Key::NumpadPeriod,
            224 => Key::LeftControl,
            225 => Key::LeftShift,
            226 => Key::LeftAlt,
            227 => Key::LeftSuper,
            228 => Key::RightControl,
            229 => Key::RightShift,
            230 => Key::RightAlt,
            231 => Key::RightSuper,
            _ => Key::Unknown,
        };
        proof {
            if key != Key::Unknown {
                assert(key.scancode() == scancode);
                Key::lemma_scancode_injective(Key::of_scancode(scancode as int), key);
            } else {
                assert forall|k: Key| k.scancode() == scancode implies k == Key::Unknown by {}
                if exists|k: Key| k.scancode() == scancode {
                    let k = choose|k: Key| k.scancode() == scancode;
                    assert(k == Key::Unknown);
                }
            }
        }
        key
    }
}

/// What the runtime reads of the window system's record of an event.
/// Fields that the kind of event does not use may hold anything.
#[derive(Clone, Copy, Debug, PartialEq, Eq, Structural)]
pub struct RawEvent {
    /// Kind code of the event.
    pub kind: i32,
    /// Scancode of the key, for a key event.
    pub scancode: i32,
    /// Not zero where a key event repeats a key already down.
    pub repeat: u8,
    /// Code of what happened to the window, for a window event.
    pub window_event: u8,
    /// First number of a window event: the new width after a resize.
    pub data1: i32,
    /// Second number of a window event: the new height after a resize.
    pub data2: i32,
}

/// An event as the runtime hands it to the program.
#[derive(Clone, Copy, Debug, PartialEq, Eq, Structural)]
pub enum Event {
    /// A key went down, or repeats while held.
    KeyPressed { scancode: Key, repeat: bool },
    /// A key went up.
    KeyReleased { scancode: Key },
    /// The window has a new width and height.
    Resized(i32, i32),
    /// An event of a kind the runtime has no use for.
    Unknown,
    /// The program is asked to quit.
    Quit,
}

impl Event {
    /// The event that a record of the window system stands for.
    pub open spec fn of_raw(event: RawEvent) -> Event {
        if event.kind == EVENT_KEY_DOWN {
            Event::KeyPressed {
                scancode: Key::of_scancode(event.scancode as int),
                repeat: event.repeat != 0,
            }
        } else if event.kind == EVENT_KEY_UP {
            Event::KeyReleased { scancode: Key::of_scancode(event.scancode as int) }
        } else if event.kind == EVENT_WINDOW && event.window_event == WINDOW_EVENT_RESIZED {
            Event::Resized(event.data1, event.data2)
        } else if event.kind == EVENT_QUIT {
            Event::Quit
        } else {
            Event::Unknown
        }
    }

    /// The event that a record of the window system stands for.
    pub fn from_sdl_event(event: RawEvent) -> (read: Event)
        ensures
            read == Event::of_raw(event),
    {
        if event.kind == EVENT_KEY_DOWN {
            Event::KeyPressed {
                scancode: Key::from_sdl_scancode(event.scancode),
                repeat: event.repeat != 0,
            }
        } else if event.kind == EVENT_KEY_UP {
            Event::KeyReleased { scancode: Key::from_sdl_scancode(event.scancode) }
        } else if event.kind == EVENT_WINDOW {
            if event.window_event == WINDOW_EVENT_RESIZED {
                Event::Resized(event.data1, event.data2)
            } else {
                Event::Unknown
            }
        } else if event.kind == EVENT_QUIT {
            Event::Quit
        } else {
            Event::Unknown
        }
    }
}

} // verus!
