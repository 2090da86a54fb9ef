//! Keyboard and mouse input, and its translation into interface events.
use crate::text::string_push;
use vstd::prelude::*;

verus! {

/// A key of the keyboard, as the window system names it. Every key that no
/// table of this crate names is `Other`.
#[derive(Clone, Copy, Debug, PartialEq, Eq, Structural)]
pub enum VirtualKeyCode {
    Key1,
    Key2,
    Key3,
    Key4,
    Key5,
    Key6,
    Key7,
    Key8,
    Key9,
    Key0,
    A,
    B,
    C,
    D,
    E,
    F,
    G,
    H,
    I,
    J,
    K,
    L,
    M,
    N,
    O,
    P,
    Q,
    R,
    S,
    T,
    U,
    V,
    W,
    X,
    Y,
    Z,
    Escape,
    F1,
    F2,
    F3,
    F4,
    F5,
    F6,
    F7,
    F8,
    F9,
    F10,
    F11,
    F12,
    Snapshot,
    Pause,
    Insert,
    Home,
    Delete,
    End,
    PageDown,
    PageUp,
    Left,
    Up,
    Right,
    Down,
    Back,
    Return,
    Space,
    LControl,
    LShift,
    Apostrophe,
    Backslash,
    Comma,
    Equals,
    F13,
    F14,
    F15,
    Numpad0,
    Numpad1,
    Numpad2,
    Numpad3,
    Numpad4,
    Numpad5,
    Numpad6,
    Numpad7,
    Numpad8,
    Numpad9,
    NumpadComma,
    Divide,
    Multiply,
    Subtract,
    Add,
    NumpadEnter,
    NumpadEquals,
    LAlt,
    LMenu,
    RShift,
    RControl,
    RAlt,
    RMenu,
    LBracket,
    Minus,
    Numlock,
    Period,
    RBracket,
    Semicolon,
    Slash,
    Tab,
    Other,
}

/// A key, as the interface names it.
#[derive(Clone, Copy, Debug, PartialEq, Eq, Structural)]
pub enum Key {
    D0,
    D1,
    D2,
    D3,
    D4,
    D5,
    D6,
    D7,
    D8,
    D9,
    A,
    B,
    C,
    D,
    E,
    F,
    G,
    H,
    I,
    J,
    K,
    L,
    M,
    N,
    O,
    P,
    Q,
    R,
    S,
    T,
    U,
    V,
    W,
    X,
    Y,
    Z,
    Unknown,
    Backslash,
    Backspace,
    Delete,
    Comma,
    Down,
    End,
    Return,
    Equals,
    Escape,
    F1,
    F2,
    F3,
    F4,
    F5,
    F6,
    F7,
    F8,
    F9,
    F10,
    F11,
    F12,
    F13,
    F14,
    F15,
    NumPad0,
    NumPad1,
    NumPad2,
    NumPad3,
    NumPad4,
    NumPad5,
    NumPad6,
    NumPad7,
    NumPad8,
    NumPad9,
    NumPadDecimal,
    NumPadDivide,
    NumPadMultiply,
    NumPadMinus,
    NumPadPlus,
    NumPadEnter,
    NumPadEquals,
    LShift,
    LCtrl,
    LAlt,
    LGui,
    RShift,
    RCtrl,
    RAlt,
    RGui,
    Home,
    Insert,
    Left,
    LeftBracket,
    Minus,
    NumLockClear,
    PageDown,
    PageUp,
    Pause,
    Period,
    Right,
    RightBracket,
    Semicolon,
    Slash,
    Space,
    Tab,
    Up,
}

/// The interface key for a keyboard key.
pub open spec fn spec_map_key(keycode: VirtualKeyCode) -> Key {
    match keycode {
        VirtualKeyCode::Key0 => Key::D0,
        VirtualKeyCode::Key1 => Key::D1,
        VirtualKeyCode::Key2 => Key::D2,
        VirtualKeyCode::Key3 => Key::D3,
        VirtualKeyCode::Key4 => Key::D4,
        VirtualKeyCode::Key5 => Key::D5,
        VirtualKeyCode::Key6 => Key::D6,
        VirtualKeyCode::Key7 => Key::D7,
        VirtualKeyCode::Key8 => Key::D8,
        VirtualKeyCode::Key9 => Key::D9,
        VirtualKeyCode::A => Key::A,
        VirtualKeyCode::B => Key::B,
        VirtualKeyCode::C => Key::C,
        VirtualKeyCode::D => Key::D,
        VirtualKeyCode::E => Key::E,
        VirtualKeyCode::F => Key::F,
        VirtualKeyCode::G => Key::G,
        VirtualKeyCode::H => Key::H,
        VirtualKeyCode::I => Key::I,
        VirtualKeyCode::J => Key::J,
        VirtualKeyCode::K => Key::K,
        VirtualKeyCode::L => Key::L,
        VirtualKeyCode::M => Key::M,
        VirtualKeyCode::N => Key::N,
        VirtualKeyCode::O => Key::O,
        VirtualKeyCode::P => Key::P,
        VirtualKeyCode::Q => Key::Q,
        VirtualKeyCode::R => Key::R,
        VirtualKeyCode::S => Key::S,
        VirtualKeyCode::T => Key::T,
        VirtualKeyCode::U => Key::U,
        VirtualKeyCode::V => Key::V,
        VirtualKeyCode::W => Key::W,
        VirtualKeyCode::X => Key::X,
        VirtualKeyCode::Y => Key::Y,
        VirtualKeyCode::Z => Key::Z,
        VirtualKeyCode::Apostrophe => Key::Unknown,
        VirtualKeyCode::Backslash => Key::Backslash,
        VirtualKeyCode::Back => Key::Backspace,
        VirtualKeyCode::Delete => Key::Delete,
        VirtualKeyCode::Comma => Key::Comma,
        VirtualKeyCode::Down => Key::Down,
        VirtualKeyCode::End => Key::End,
        VirtualKeyCode::Return => Key::Return,
        VirtualKeyCode::Equals => Key::Equals,
        VirtualKeyCode::Escape => Key::Escape,
        VirtualKeyCode::F1 => Key::F1,
        VirtualKeyCode::F2 => Key::F2,
        VirtualKeyCode::F3 => Key::F3,
        VirtualKeyCode::F4 => Key::F4,
        VirtualKeyCode::F5 => Key::F5,
        VirtualKeyCode::F6 => Key::F6,
        VirtualKeyCode::F7 => Key::F7,
        VirtualKeyCode::F8 => Key::F8,
        VirtualKeyCode::F9 => Key::F9,
        VirtualKeyCode::F10 => Key::F10,
        VirtualKeyCode::F11 => Key::F11,
        VirtualKeyCode::F12 => Key::F12,
        VirtualKeyCode::F13 => Key::F13,
        VirtualKeyCode::F14 => Key::F14,
        VirtualKeyCode::F15 => Key::F15,
        VirtualKeyCode::Numpad0 => Key::NumPad0,
        VirtualKeyCode::Numpad1 => Key::NumPad1,
        VirtualKeyCode::Numpad2 => Key::NumPad2,
        VirtualKeyCode::Numpad3 => Key::NumPad3,
        VirtualKeyCode::Numpad4 => Key::NumPad4,
        VirtualKeyCode::Numpad5 => Key::NumPad5,
        VirtualKeyCode::Numpad6 => Key::NumPad6,
        VirtualKeyCode::Numpad7 => Key::NumPad7,
        VirtualKeyCode::Numpad8 => Key::NumPad8,
        VirtualKeyCode::Numpad9 => Key::NumPad9,
        VirtualKeyCode::NumpadComma => Key::NumPadDecimal,
        VirtualKeyCode::Divide => Key::NumPadDivide,
        VirtualKeyCode::Multiply => Key::NumPadMultiply,
        VirtualKeyCode::Subtract => Key::NumPadMinus,
        VirtualKeyCode::Add => Key::NumPadPlus,
        VirtualKeyCode::NumpadEnter => Key::NumPadEnter,
        VirtualKeyCode::NumpadEquals => Key::NumPadEquals,
        VirtualKeyCode::LShift => Key::LShift,
        VirtualKeyCode::LControl => Key::LCtrl,
        VirtualKeyCode::LAlt => Key::LAlt,
        VirtualKeyCode::LMenu => Key::LGui,
        VirtualKeyCode::RShift => Key::RShift,
        VirtualKeyCode::RControl => Key::RCtrl,
        VirtualKeyCode::RAlt => Key::RAlt,
        VirtualKeyCode::RMenu => Key::RGui,
        VirtualKeyCode::Home => Key::Home,
        VirtualKeyCode::Insert => Key::Insert,
        VirtualKeyCode::Left => Key::Left,
        VirtualKeyCode::LBracket => Key::LeftBracket,
        VirtualKeyCode::Minus => Key::Minus,
        VirtualKeyCode::Numlock => Key::NumLockClear,
        VirtualKeyCode::PageDown => Key::PageDown,
        VirtualKeyCode::PageUp => Key::PageUp,
        VirtualKeyCode::Pause => Key::Pause,
        VirtualKeyCode::Period => Key::Period,
        VirtualKeyCode::Right => Key::Right,
        VirtualKeyCode::RBracket => Key::RightBracket,
        VirtualKeyCode::Semicolon => Key::Semicolon,
        VirtualKeyCode::Slash => Key::Slash,
        VirtualKeyCode::Space => Key::Space,
        VirtualKeyCode::Tab => Key::Tab,
        VirtualKeyCode::Up => Key::Up,
        _ => Key::Unknown,
    }
}

/// The letter a key stands for, counted from 0 for A; -1 for other keys.
pub open spec fn vk_letter(k: VirtualKeyCode) -> int {
    match k {
        VirtualKeyCode::A => 0,
        VirtualKeyCode::B => 1,
        VirtualKeyCode::C => 2,
        VirtualKeyCode::D => 3,
        VirtualKeyCode::E => 4,
        VirtualKeyCode::F => 5,
        VirtualKeyCode::G => 6,
        VirtualKeyCode::H => 7,
        VirtualKeyCode::I => 8,
        VirtualKeyCode::J => 9,
        VirtualKeyCode::K => 10,
        VirtualKeyCode::L => 11,
        VirtualKeyCode::M => 12,
        VirtualKeyCode::N => 13,
        VirtualKeyCode::O => 14,
        VirtualKeyCode::P => 15,
        VirtualKeyCode::Q => 16,
        VirtualKeyCode::R => 17,
        VirtualKeyCode::S => 18,
        VirtualKeyCode::T => 19,
        VirtualKeyCode::U => 20,
        VirtualKeyCode::V => 21,
        VirtualKeyCode::W => 22,
        VirtualKeyCode::X => 23,
        VirtualKeyCode::Y => 24,
        VirtualKeyCode::Z => 25,
        _ => -1,
    }
}

/// The digit a key of the main row stands for; -1 for other keys.
pub open spec fn vk_digit(k: VirtualKeyCode) -> int {
    match k {
        VirtualKeyCode::Key0 => 0,
        VirtualKeyCode::Key1 => 1,
        VirtualKeyCode::Key2 => 2,
        VirtualKeyCode::Key3 => 3,
        VirtualKeyCode::Key4 => 4,
        VirtualKeyCode::Key5 => 5,
        VirtualKeyCode::Key6 => 6,
        VirtualKeyCode::Key7 => 7,
        VirtualKeyCode::Key8 => 8,
        VirtualKeyCode::Key9 => 9,
        _ => -1,
    }
}

/// The number of a function key; -1 for other keys.
pub open spec fn vk_function(k: VirtualKeyCode) -> int {
    match k {
        VirtualKeyCode::F1 => 1,
        VirtualKeyCode::F2 => 2,
        VirtualKeyCode::F3 => 3,
        VirtualKeyCode::F4 => 4,
        VirtualKeyCode::F5 => 5,
        VirtualKeyCode::F6 => 6,
        VirtualKeyCode::F7 => 7,
        VirtualKeyCode::F8 => 8,
        VirtualKeyCode::F9 => 9,
        VirtualKeyCode::F10 => 10,
        VirtualKeyCode::F11 => 11,
        VirtualKeyCode::F12 => 12,
        VirtualKeyCode::F13 => 13,
        VirtualKeyCode::F14 => 14,
        VirtualKeyCode::F15 => 15,
        _ => -1,
    }
}

/// The digit a key of the number pad stands for; -1 for other keys.
pub open spec fn vk_numpad(k: VirtualKeyCode) -> int {
    match k {
        VirtualKeyCode::Numpad0 => 0,
        VirtualKeyCode::Numpad1 => 1,
        VirtualKeyCode::Numpad2 => 2,
        VirtualKeyCode::Numpad3 => 3,
        VirtualKeyCode::Numpad4 => 4,
        VirtualKeyCode::Numpad5 => 5,
        VirtualKeyCode::Numpad6 => 6,
        VirtualKeyCode::Numpad7 => 7,
        VirtualKeyCode::Numpad8 => 8,
        VirtualKeyCode::Numpad9 => 9,
        _ => -1,
    }
}

/// The letter a UI key stands for, counted from 0 for A; -1 for others.
pub open spec fn ui_letter(k: Key) -> int {
    match k {
        Key::A => 0,
        Key::B => 1,
        Key::C => 2,
        Key::D => 3,
        Key::E => 4,
        Key::F => 5,
        Key::G => 6,
        Key::H => 7,
        Key::I => 8,
        Key::J => 9,
        Key::K => 10,
        Key::L => 11,
        Key::M => 12,
        Key::N => 13,
        Key::O => 14,
        Key::P => 15,
        Key::Q => 16,
        Key::R => 17,
        Key::S => 18,
        Key::T => 19,
        Key::U => 20,
        Key::V => 21,
        Key::W => 22,
        Key::X => 23,
        Key::Y => 24,
        Key::Z => 25,
        _ => -1,
    }
}

/// The digit a UI key of the main row stands for; -1 for others.
pub open spec fn ui_digit(k: Key) -> int {
    match k {
        Key::D0 => 0,
        Key::D1 => 1,
        Key::D2 => 2,
        Key::D3 => 3,
        Key::D4 => 4,
        Key::D5 => 5,
        Key::D6 => 6,
        Key::D7 => 7,
        Key::D8 => 8,
        Key::D9 => 9,
        _ => -1,
    }
}

/// The number of a UI function key; -1 for others.
pub open spec fn ui_function(k: Key) -> int {
    match k {
        Key::F1 => 1,
        Key::F2 => 2,
        Key::F3 => 3,
        Key::F4 => 4,
        Key::F5 => 5,
        Key::F6 => 6,
        Key::F7 => 7,
        Key::F8 => 8,
        Key::F9 => 9,
        Key::F10 => 10,
        Key::F11 => 11,
        Key::F12 => 12,
        Key::F13 => 13,
        Key::F14 => 14,
        Key::F15 => 15,
        _ => -1,
    }
}

/// The digit a UI key of the number pad stands for; -1 for others.
pub open spec fn ui_numpad(k: Key) -> int {
    match k {
        Key::NumPad0 => 0,
        Key::NumPad1 => 1,
        Key::NumPad2 => 2,
        Key::NumPad3 => 3,
        Key::NumPad4 => 4,
        Key::NumPad5 => 5,
        Key::NumPad6 => 6,
        Key::NumPad7 => 7,
        Key::NumPad8 => 8,
        Key::NumPad9 => 9,
        _ => -1,
    }
}

/// The window key that gives the UI key `k`.
spec fn key_source(k: Key) -> VirtualKeyCode {
    match k {
        Key::D0 => VirtualKeyCode::Key0,
        Key::D1 => VirtualKeyCode::Key1,
        Key::D2 => VirtualKeyCode::Key2,
        Key::D3 => VirtualKeyCode::Key3,
        Key::D4 => VirtualKeyCode::Key4,
        Key::D5 => VirtualKeyCode::Key5,
        Key::D6 => VirtualKeyCode::Key6,
        Key::D7 => VirtualKeyCode::Key7,
        Key::D8 => VirtualKeyCode::Key8,
        Key::D9 => VirtualKeyCode::Key9,
        Key::A => VirtualKeyCode::A,
        Key::B => VirtualKeyCode::B,
        Key::C => VirtualKeyCode::C,
        Key::D => VirtualKeyCode::D,
        Key::E => VirtualKeyCode::E,
        Key::F => VirtualKeyCode::F,
        Key::G => VirtualKeyCode::G,
        Key::H => VirtualKeyCode::H,
        Key::I => VirtualKeyCode::I,
        Key::J => VirtualKeyCode::J,
        Key::K => VirtualKeyCode::K,
        Key::L => VirtualKeyCode::L,
        Key::M => VirtualKeyCode::M,
        Key::N => VirtualKeyCode::N,
        Key::O => VirtualKeyCode::O,
        Key::P => VirtualKeyCode::P,
        Key::Q => VirtualKeyCode::Q,
        Key::R => VirtualKeyCode::R,
        Key::S => VirtualKeyCode::S,
        Key::T => VirtualKeyCode::T,
        Key::U => VirtualKeyCode::U,
        Key::V => VirtualKeyCode::V,
        Key::W => VirtualKeyCode::W,
        Key::X => VirtualKeyCode::X,
        Key::Y => VirtualKeyCode::Y,
        Key::Z => VirtualKeyCode::Z,
        Key::Backslash => VirtualKeyCode::Backslash,
        Key::Backspace => VirtualKeyCode::Back,
        Key::Delete => VirtualKeyCode::Delete,
        Key::Comma => VirtualKeyCode::Comma,
        Key::Down => VirtualKeyCode::Down,
        Key::End => VirtualKeyCode::End,
        Key::Return => VirtualKeyCode::Return,
        Key::Equals => VirtualKeyCode::Equals,
        Key::Escape => VirtualKeyCode::Escape,
        Key::F1 => VirtualKeyCode::F1,
        Key::F2 => VirtualKeyCode::F2,
        Key::F3 => VirtualKeyCode::F3,
        Key::F4 => VirtualKeyCode::F4,
        Key::F5 => VirtualKeyCode::F5,
        Key::F6 => VirtualKeyCode::F6,
        Key::F7 => VirtualKeyCode::F7,
        Key::F8 => VirtualKeyCode::F8,
        Key::F9 => VirtualKeyCode::F9,
        Key::F10 => VirtualKeyCode::F10,
        Key::F11 => VirtualKeyCode::F11,
        Key::F12 => VirtualKeyCode::F12,
        Key::F13 => VirtualKeyCode::F13,
        Key::F14 => VirtualKeyCode::F14,
        Key::F15 => VirtualKeyCode::F15,
        Key::NumPad0 => VirtualKeyCode::Numpad0,
        Key::NumPad1 => VirtualKeyCode::Numpad1,
        Key::NumPad2 => VirtualKeyCode::Numpad2,
        Key::NumPad3 => VirtualKeyCode::Numpad3,
        Key::NumPad4 => VirtualKeyCode::Numpad4,
        Key::NumPad5 => VirtualKeyCode::Numpad5,
        Key::NumPad6 => VirtualKeyCode::Numpad6,
        Key::NumPad7 => VirtualKeyCode::Numpad7,
        Key::NumPad8 => VirtualKeyCode::Numpad8,
        Key::NumPad9 => VirtualKeyCode::Numpad9,
        Key::NumPadDecimal => VirtualKeyCode::NumpadComma,
        Key::NumPadDivide => VirtualKeyCode::Divide,
        Key::NumPadMultiply => VirtualKeyCode::Multiply,
        Key::NumPadMinus => VirtualKeyCode::Subtract,
        Key::NumPadPlus => VirtualKeyCode::Add,
        Key::NumPadEnter => VirtualKeyCode::NumpadEnter,
        Key::NumPadEquals => VirtualKeyCode::NumpadEquals,
        Key::LShift => VirtualKeyCode::LShift,
        Key::LCtrl => VirtualKeyCode::LControl,
        Key::LAlt => VirtualKeyCode::LAlt,
        Key::LGui => VirtualKeyCode::LMenu,
        Key::RShift => VirtualKeyCode::RShift,
        Key::RCtrl => VirtualKeyCode::RControl,
        Key::RAlt => VirtualKeyCode::RAlt,
        Key::RGui => VirtualKeyCode::RMenu,
        Key::Home => VirtualKeyCode::Home,
        Key::Insert => VirtualKeyCode::Insert,
        Key::Left => VirtualKeyCode::Left,
        Key::LeftBracket => VirtualKeyCode::LBracket,
        Key::Minus => VirtualKeyCode::Minus,
        Key::NumLockClear => VirtualKeyCode::Numlock,
        Key::PageDown => VirtualKeyCode::PageDown,
        Key::PageUp => VirtualKeyCode::PageUp,
        Key::Pause => VirtualKeyCode::Pause,
        Key::Period => VirtualKeyCode::Period,
        Key::Right => VirtualKeyCode::Right,
        Key::RightBracket => VirtualKeyCode::RBracket,
        Key::Semicolon => VirtualKeyCode::Semicolon,
        Key::Slash => VirtualKeyCode::Slash,
        Key::Space => VirtualKeyCode::Space,
        Key::Tab => VirtualKeyCode::Tab,
        Key::Up => VirtualKeyCode::Up,
        _ => VirtualKeyCode::Apostrophe,
    }
}

proof fn lemma_key_source(k: VirtualKeyCode)
    requires
        spec_map_key(k) != Key::Unknown,
    ensures
        key_source(spec_map_key(k)) == k,
{
}

/// Every letter, digit, function and number-pad key becomes the UI key of
/// the same letter, digit or number.
pub proof fn lemma_map_key_keeps_symbols(k: VirtualKeyCode)
    ensures
        vk_letter(k) >= 0 ==> ui_letter(spec_map_key(k)) == vk_letter(k),
        vk_digit(k) >= 0 ==> ui_digit(spec_map_key(k)) == vk_digit(k),
        vk_function(k) >= 0 ==> ui_function(spec_map_key(k)) == vk_function(k),
        vk_numpad(k) >= 0 ==> ui_numpad(spec_map_key(k)) == vk_numpad(k),
{
}

/// Two different window keys never give the same UI key, unless it is
/// the unknown key.
pub proof fn lemma_map_key_distinct(k1: VirtualKeyCode, k2: VirtualKeyCode)
    requires
        k1 != k2,
        spec_map_key(k1) != Key::Unknown,
    ensures
        spec_map_key(k1) != spec_map_key(k2),
{
    lemma_key_source(k1);
    if spec_map_key(k1) == spec_map_key(k2) {
        lemma_key_source(k2);
    }
}

/// Translates a keyboard key into the interface's key.
pub fn map_key(keycode: VirtualKeyCode) -> (r: Key)
    ensures
        r == spec_map_key(keycode),
{
    match keycode {
        VirtualKeyCode::Key0 => Key::D0,
        VirtualKeyCode::Key1 => Key::D1,
        VirtualKeyCode::Key2 => Key::D2,
        VirtualKeyCode::Key3 => Key::D3,
        VirtualKeyCode::Key4 => Key::D4,
        VirtualKeyCode::Key5 => Key::D5,
        VirtualKeyCode::Key6 => Key::D6,
        VirtualKeyCode::Key7 => Key::D7,
        VirtualKeyCode::Key8 => Key::D8,
        VirtualKeyCode::Key9 => Key::D9,
        VirtualKeyCode::A => Key::A,
        VirtualKeyCode::B => Key::B,
        VirtualKeyCode::C => Key::C,
        VirtualKeyCode::D => Key::D,
        VirtualKeyCode::E => Key::E,
        VirtualKeyCode::F => Key::F,
        VirtualKeyCode::G => Key::G,
        VirtualKeyCode::H => Key::H,
        VirtualKeyCode::I => Key::I,
        VirtualKeyCode::J => Key::J,
        VirtualKeyCode::K => Key::K,
        VirtualKeyCode::L => Key::L,
        VirtualKeyCode::M => Key::M,
        VirtualKeyCode::N => Key::N,
        VirtualKeyCode::O => Key::O,
        VirtualKeyCode::P => Key::P,
        VirtualKeyCode::Q => Key::Q,
        VirtualKeyCode::R => Key::R,
        VirtualKeyCode::S => Key::S,
        VirtualKeyCode::T => Key::T,
        VirtualKeyCode::U => Key::U,
        VirtualKeyCode::V => Key::V,
        VirtualKeyCode::W => Key::W,
        VirtualKeyCode::X => Key::X,
        VirtualKeyCode::Y => Key::Y,
        VirtualKeyCode::Z => Key::Z,
        VirtualKeyCode::Apostrophe => Key::Unknown,
        VirtualKeyCode::Backslash => Key::Backslash,
        VirtualKeyCode::Back => Key::Backspace,
        VirtualKeyCode::Delete => Key::Delete,
        VirtualKeyCode::Comma => Key::Comma,
        VirtualKeyCode::Down => Key::Down,
        VirtualKeyCode::End => Key::End,
        VirtualKeyCode::Return => Key::Return,
        VirtualKeyCode::Equals => Key::Equals,
        VirtualKeyCode::Escape => Key::Escape,
        VirtualKeyCode::F1 => Key::F1,
        VirtualKeyCode::F2 => Key::F2,
        VirtualKeyCode::F3 => Key::F3,
        VirtualKeyCode::F4 => Key::F4,
        VirtualKeyCode::F5 => Key::F5,
        VirtualKeyCode::F6 => Key::F6,
        VirtualKeyCode::F7 => Key::F7,
        VirtualKeyCode::F8 => Key::F8,
        VirtualKeyCode::F9 => Key::F9,
        VirtualKeyCode::F10 => Key::F10,
        VirtualKeyCode::F11 => Key::F11,
        VirtualKeyCode::F12 => Key::F12,
        VirtualKeyCode::F13 => Key::F13,
        VirtualKeyCode::F14 => Key::F14,
        VirtualKeyCode::F15 => Key::F15,
        VirtualKeyCode::Numpad0 => Key::NumPad0,
        VirtualKeyCode::Numpad1 => Key::NumPad1,
        VirtualKeyCode::Numpad2 => Key::NumPad2,
        VirtualKeyCode::Numpad3 => Key::NumPad3,
        VirtualKeyCode::Numpad4 => Key::NumPad4,
        VirtualKeyCode::Numpad5 => Key::NumPad5,
        VirtualKeyCode::Numpad6 => Key::NumPad6,
        VirtualKeyCode::Numpad7 => Key::NumPad7,
        VirtualKeyCode::Numpad8 => Key::NumPad8,
        VirtualKeyCode::Numpad9 => Key::NumPad9,
        VirtualKeyCode::NumpadComma => Key::NumPadDecimal,
        VirtualKeyCode::Divide => Key::NumPadDivide,
        VirtualKeyCode::Multiply => Key::NumPadMultiply,
        VirtualKeyCode::Subtract => Key::NumPadMinus,
        VirtualKeyCode::Add => Key::NumPadPlus,
        VirtualKeyCode::NumpadEnter => Key::NumPadEnter,
        VirtualKeyCode::NumpadEquals => Key::NumPadEquals,
        VirtualKeyCode::LShift => Key::LShift,
        VirtualKeyCode::LControl => Key::LCtrl,
        VirtualKeyCode::LAlt => Key::LAlt,
        VirtualKeyCode::LMenu => Key::LGui,
        VirtualKeyCode::RShift => Key::RShift,
        VirtualKeyCode::RControl => Key::RCtrl,
        VirtualKeyCode::RAlt => Key::RAlt,
        VirtualKeyCode::RMenu => Key::RGui,
        VirtualKeyCode::Home => Key::Home,
        VirtualKeyCode::Insert => Key::Insert,
        VirtualKeyCode::Left => Key::Left,
        VirtualKeyCode::LBracket => Key::LeftBracket,
        VirtualKeyCode::Minus => Key::Minus,
        VirtualKeyCode::Numlock => Key::NumLockClear,
        VirtualKeyCode::PageDown => Key::PageDown,
        VirtualKeyCode::PageUp => Key::PageUp,
        VirtualKeyCode::Pause => Key::Pause,
        VirtualKeyCode::Period => Key::Period,
        VirtualKeyCode::Right => Key::Right,
        VirtualKeyCode::RBracket => Key::RightBracket,
        VirtualKeyCode::Semicolon => Key::Semicolon,
        VirtualKeyCode::Slash => Key::Slash,
        VirtualKeyCode::Space => Key::Space,
        VirtualKeyCode::Tab => Key::Tab,
        VirtualKeyCode::Up => Key::Up,
        _ => Key::Unknown,
    }
}

/// A mouse button, as the window system names it.
#[derive(Clone, Copy, Debug, PartialEq, Eq, Structural)]
pub enum MouseButton {
    Left,
    Right,
    Middle,
    Other(u8),
}

/// A mouse button, as the interface names it.
#[derive(Clone, Copy, Debug, PartialEq, Eq, Structural)]
pub enum UiMouseButton {
    Left,
    Right,
    Middle,
    X1,
    X2,
    Button6,
    Button7,
    Button8,
    Unknown,
}

/// Whether a key or button went down or up.
#[derive(Clone, Copy, Debug, PartialEq, Eq, Structural)]
pub enum ElementState {
    Pressed,
    Released,
}

/// A key or button, as the interface names it.
#[derive(Clone, Copy, Debug, PartialEq, Eq, Structural)]
pub enum Button {
    Keyboard(Key),
    Mouse(UiMouseButton),
}

/// A key event of the window system.
#[derive(Clone, Copy, Debug, PartialEq, Eq, Structural)]
pub struct KeyboardInput {
    pub state: ElementState,
    pub virtual_keycode: Option<VirtualKeyCode>,
}

/// An input event of the interface.
pub enum Input {
    Press(Button),
    Release(Button),
    Text(String),
}

/// The interface button for a mouse button.
pub open spec fn spec_map_mouse(mouse_button: MouseButton) -> UiMouseButton {
    match mouse_button {
        MouseButton::Left => UiMouseButton::Left,
        MouseButton::Right => UiMouseButton::Right,
        MouseButton::Middle => UiMouseButton::Middle,
        MouseButton::Other(0) => UiMouseButton::X1,
        MouseButton::Other(1) => UiMouseButton::X2,
        MouseButton::Other(2) => UiMouseButton::Button6,
        MouseButton::Other(3) => UiMouseButton::Button7,
        MouseButton::Other(4) => UiMouseButton::Button8,
        _ => UiMouseButton::Unknown,
    }
}

/// Translates a mouse button into the interface's button.
pub fn map_mouse(mouse_button: MouseButton) -> (r: UiMouseButton)
    ensures
        r == spec_map_mouse(mouse_button),
{
    match mouse_button {
        MouseButton::Left => UiMouseButton::Left,
        MouseButton::Right => UiMouseButton::Right,
        MouseButton::Middle => UiMouseButton::Middle,
        MouseButton::Other(0) => UiMouseButton::X1,
        MouseButton::Other(1) => UiMouseButton::X2,
        MouseButton::Other(2) => UiMouseButton::Button6,
        MouseButton::Other(3) => UiMouseButton::Button7,
        MouseButton::Other(4) => UiMouseButton::Button8,
        _ => UiMouseButton::Unknown,
    }
}

/// Translates a key event: a press or release of the interface key, or
/// nothing for a key that the window system could not name.
pub fn convert_keycode(input: KeyboardInput) -> (r: Option<Input>)
    ensures
        match input.virtual_keycode {
            None => r is None,
            Some(key) => match input.state {
                ElementState::Pressed => r matches Some(Input::Press(b))
                    && b == Button::Keyboard(spec_map_key(key)),
                ElementState::Released => r matches Some(Input::Release(b))
                    && b == Button::Keyboard(spec_map_key(key)),
            },
        },
{
    match input.virtual_keycode {
        None => None,
        Some(key) => match input.state {
            ElementState::Pressed => Some(Input::Press(Button::Keyboard(map_key(key)))),
            ElementState::Released => Some(Input::Release(Button::Keyboard(map_key(key)))),
        },
    }
}

/// Translates a mouse button event.
pub fn convert_mousebutton(state: ElementState, button: MouseButton) -> (r: Input)
    ensures
        match state {
            ElementState::Pressed => r matches Input::Press(b)
                && b == Button::Mouse(spec_map_mouse(button)),
            ElementState::Released => r matches Input::Release(b)
                && b == Button::Mouse(spec_map_mouse(button)),
        },
{
    match state {
        ElementState::Pressed => Input::Press(Button::Mouse(map_mouse(button))),
        ElementState::Released => Input::Release(Button::Mouse(map_mouse(button))),
    }
}

/// Control characters that typing does not insert: delete, escape,
/// backspace, carriage return, line feed and tab.
pub open spec fn is_ignored_char(ch: char) -> bool {
    ch == '\u{7f}' || ch == '\u{1b}' || ch == '\u{8}' || ch == '\r' || ch == '\n' || ch == '\t'
}

/// Translates a typed character into text: the character itself, or no
/// text for an ignored control character.
pub fn convert_character(ch: char) -> (r: Input)
    ensures
        r matches Input::Text(t) && t@ == (if is_ignored_char(ch) {
            Seq::<char>::empty()
        } else {
            seq![ch]
        }),
{
    let mut text = String::new();
    if !(ch == '\u{7f}' || ch == '\u{1b}' || ch == '\u{8}' || ch == '\r' || ch == '\n' || ch == '\t') {
        string_push(&mut text, ch);
    }
    Input::Text(text)
}

} // verus!
