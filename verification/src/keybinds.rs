//! Key bindings, and the names under which keys are stored.
use crate::text::str_eq;
use crate::ui::input::{vk_digit, vk_function, vk_letter, VirtualKeyCode};
use vstd::prelude::*;

verus! {

/// The name under which a key is stored; empty for keys that have none.
pub open spec fn spec_vkcode_name(code: VirtualKeyCode) -> Seq<char> {
    match code {
        VirtualKeyCode::Key1 => "Key1"@,
        VirtualKeyCode::Key2 => "Key2"@,
        VirtualKeyCode::Key3 => "Key3"@,
        VirtualKeyCode::Key4 => "Key4"@,
        VirtualKeyCode::Key5 => "Key5"@,
        VirtualKeyCode::Key6 => "Key6"@,
        VirtualKeyCode::Key7 => "Key7"@,
        VirtualKeyCode::Key8 => "Key8"@,
        VirtualKeyCode::Key9 => "Key9"@,
        VirtualKeyCode::Key0 => "Key0"@,
        VirtualKeyCode::A => "A"@,
        VirtualKeyCode::B => "B"@,
        VirtualKeyCode::C => "C"@,
        VirtualKeyCode::D => "D"@,
        VirtualKeyCode::E => "E"@,
        VirtualKeyCode::F => "F"@,
        VirtualKeyCode::G => "G"@,
        VirtualKeyCode::H => "H"@,
        VirtualKeyCode::I => "I"@,
        VirtualKeyCode::J => "J"@,
        VirtualKeyCode::K => "K"@,
        VirtualKeyCode::L => "L"@,
        VirtualKeyCode::M => "M"@,
        VirtualKeyCode::N => "N"@,
        VirtualKeyCode::O => "O"@,
        VirtualKeyCode::P => "P"@,
        VirtualKeyCode::Q => "Q"@,
        VirtualKeyCode::R => "R"@,
        VirtualKeyCode::S => "S"@,
        VirtualKeyCode::T => "T"@,
        VirtualKeyCode::U => "U"@,
        VirtualKeyCode::V => "V"@,
        VirtualKeyCode::W => "W"@,
        VirtualKeyCode::X => "X"@,
        VirtualKeyCode::Y => "Y"@,
        VirtualKeyCode::Z => "Z"@,
        VirtualKeyCode::Escape => "Escape"@,
        VirtualKeyCode::F1 => "F1"@,
        VirtualKeyCode::F2 => "F2"@,
        VirtualKeyCode::F3 => "F3"@,
        VirtualKeyCode::F4 => "F4"@,
        VirtualKeyCode::F5 => "F5"@,
        VirtualKeyCode::F6 => "F6"@,
        VirtualKeyCode::F7 => "F7"@,
        VirtualKeyCode::F8 => "F8"@,
        VirtualKeyCode::F9 => "F9"@,
        VirtualKeyCode::F10 => "F10"@,
        VirtualKeyCode::F11 => "F11"@,
        VirtualKeyCode::F12 => "F12"@,
        VirtualKeyCode::Snapshot => "Snapshot"@,
        VirtualKeyCode::Pause => "Pause"@,
        VirtualKeyCode::Insert => "Insert"@,
        VirtualKeyCode::Home => "Home"@,
        VirtualKeyCode::Delete => "Delete"@,
        VirtualKeyCode::End => "End"@,
        VirtualKeyCode::PageDown => "PageDown"@,
        VirtualKeyCode::PageUp => "PageUp"@,
        VirtualKeyCode::Left => "Left"@,
        VirtualKeyCode::Up => "Up"@,
        VirtualKeyCode::Right => "Right"@,
        VirtualKeyCode::Down => "Down"@,
        VirtualKeyCode::Back => "Back"@,
        VirtualKeyCode::Return => "Return"@,
        VirtualKeyCode::Space => "Space"@,
        VirtualKeyCode::LControl => "LControl"@,
        VirtualKeyCode::LShift => "LShift"@,
        _ => ""@,
    }
}

/// The key stored under a name, if any.
pub open spec fn spec_str_to_vkcode(s: Seq<char>) -> Option<VirtualKeyCode> {
    if s == "Key1"@ {
        Some(VirtualKeyCode::Key1)
    } else if s == "Key2"@ {
        Some(VirtualKeyCode::Key2)
    } else if s == "Key3"@ {
        Some(VirtualKeyCode::Key3)
    } else if s == "Key4"@ {
        Some(VirtualKeyCode::Key4)
    } else if s == "Key5"@ {
        Some(VirtualKeyCode::Key5)
    } else if s == "Key6"@ {
        Some(VirtualKeyCode::Key6)
    } else if s == "Key7"@ {
        Some(VirtualKeyCode::Key7)
    } else if s == "Key8"@ {
        Some(VirtualKeyCode::Key8)
    } else if s == "Key9"@ {
        Some(VirtualKeyCode::Key0)
    } else if s == "Key0"@ {
        Some(VirtualKeyCode::Key0)
    } else if s == "A"@ {
        Some(VirtualKeyCode::A)
    } else if s == "B"@ {
        Some(VirtualKeyCode::B)
    } else if s == "C"@ {
        Some(VirtualKeyCode::C)
    } else if s == "D"@ {
        Some(VirtualKeyCode::D)
    } else if s == "E"@ {
        Some(VirtualKeyCode::E)
    } else if s == "F"@ {
        Some(VirtualKeyCode::F)
    } else if s == "G"@ {
        Some(VirtualKeyCode::G)
    } else if s == "H"@ {
        Some(VirtualKeyCode::H)
    } else if s == "I"@ {
        Some(VirtualKeyCode::I)
    } else if s == "J"@ {
        Some(VirtualKeyCode::J)
    } else if s == "K"@ {
        Some(VirtualKeyCode::K)
    } else if s == "L"@ {
        Some(VirtualKeyCode::L)
    } else if s == "M"@ {
        Some(VirtualKeyCode::M)
    } else if s == "N"@ {
        Some(VirtualKeyCode::N)
    } else if s == "O"@ {
        Some(VirtualKeyCode::O)
    } else if s == "P"@ {
        Some(VirtualKeyCode::P)
    } else if s == "Q"@ {
        Some(VirtualKeyCode::Q)
    } else if s == "R"@ {
        Some(VirtualKeyCode::R)
    } else if s == "S"@ {
        Some(VirtualKeyCode::S)
    } else if s == "T"@ {
        Some(VirtualKeyCode::T)
    } else if s == "U"@ {
        Some(VirtualKeyCode::U)
    } else if s == "V"@ {
        Some(VirtualKeyCode::V)
    } else if s == "W"@ {
        Some(VirtualKeyCode::W)
    } else if s == "X"@ {
        Some(VirtualKeyCode::X)
    } else if s == "Y"@ {
        Some(VirtualKeyCode::Y)
    } else if s == "Z"@ {
        Some(VirtualKeyCode::Z)
    } else if s == "Escape"@ {
        Some(VirtualKeyCode::Escape)
    } else if s == "Return"@ {
        Some(VirtualKeyCode::Return)
    } else if s == "Space"@ {
        Some(VirtualKeyCode::Space)
    } else if s == "LControl"@ {
        Some(VirtualKeyCode::LControl)
    } else if s == "LShift"@ {
        Some(VirtualKeyCode::LShift)
    } else {
        None
    }
}

/// The name under which a key is stored: empty for keys that have none.
pub fn vkcode_to_str(code: &VirtualKeyCode) -> (r: &'static str)
    ensures
        r@ == spec_vkcode_name(*code),
{
    match code {
        VirtualKeyCode::Key1 => "Key1",
        VirtualKeyCode::Key2 => "Key2",
        VirtualKeyCode::Key3 => "Key3",
        VirtualKeyCode::Key4 => "Key4",
        VirtualKeyCode::Key5 => "Key5",
        VirtualKeyCode::Key6 => "Key6",
        VirtualKeyCode::Key7 => "Key7",
        VirtualKeyCode::Key8 => "Key8",
        VirtualKeyCode::Key9 => "Key9",
        VirtualKeyCode::Key0 => "Key0",
        VirtualKeyCode::A => "A",
        VirtualKeyCode::B => "B",
        VirtualKeyCode::C => "C",
        VirtualKeyCode::D => "D",
        VirtualKeyCode::E => "E",
        VirtualKeyCode::F => "F",
        VirtualKeyCode::G => "G",
        VirtualKeyCode::H => "H",
        VirtualKeyCode::I => "I",
        VirtualKeyCode::J => "J",
        VirtualKeyCode::K => "K",
        VirtualKeyCode::L => "L",
        VirtualKeyCode::M => "M",
        VirtualKeyCode::N => "N",
        VirtualKeyCode::O => "O",
        VirtualKeyCode::P => "P",
        VirtualKeyCode::Q => "Q",
        VirtualKeyCode::R => "R",
        VirtualKeyCode::S => "S",
        VirtualKeyCode::T => "T",
        VirtualKeyCode::U => "U",
        VirtualKeyCode::V => "V",
        VirtualKeyCode::W => "W",
        VirtualKeyCode::X => "X",
        VirtualKeyCode::Y => "Y",
        VirtualKeyCode::Z => "Z",
        VirtualKeyCode::Escape => "Escape",
        VirtualKeyCode::F1 => "F1",
        VirtualKeyCode::F2 => "F2",
        VirtualKeyCode::F3 => "F3",
        VirtualKeyCode::F4 => "F4",
        VirtualKeyCode::F5 => "F5",
        VirtualKeyCode::F6 => "F6",
        VirtualKeyCode::F7 => "F7",
        VirtualKeyCode::F8 => "F8",
        VirtualKeyCode::F9 => "F9",
        VirtualKeyCode::F10 => "F10",
        VirtualKeyCode::F11 => "F11",
        VirtualKeyCode::F12 => "F12",
        VirtualKeyCode::Snapshot => "Snapshot",
        VirtualKeyCode::Pause => "Pause",
        VirtualKeyCode::Insert => "Insert",
        VirtualKeyCode::Home => "Home",
        VirtualKeyCode::Delete => "Delete",
        VirtualKeyCode::End => "End",
        VirtualKeyCode::PageDown => "PageDown",
        VirtualKeyCode::PageUp => "PageUp",
        VirtualKeyCode::Left => "Left",
        VirtualKeyCode::Up => "Up",
        VirtualKeyCode::Right => "Right",
        VirtualKeyCode::Down => "Down",
        VirtualKeyCode::Back => "Back",
        VirtualKeyCode::Return => "Return",
        VirtualKeyCode::Space => "Space",
        VirtualKeyCode::LControl => "LControl",
        VirtualKeyCode::LShift => "LShift",
        _ => "",
    }
}

/// The key stored under the name `s`, if any.
pub fn str_to_vkcode(s: &str) -> (r: Option<VirtualKeyCode>)
    ensures
        r == spec_str_to_vkcode(s@),
{
    if str_eq(s, "Key1") {
        return Some(VirtualKeyCode::Key1);
    }
    if str_eq(s, "Key2") {
        return Some(VirtualKeyCode::Key2);
    }
    if str_eq(s, "Key3") {
        return Some(VirtualKeyCode::Key3);
    }
    if str_eq(s, "Key4") {
        return Some(VirtualKeyCode::Key4);
    }
    if str_eq(s, "Key5") {
        return Some(VirtualKeyCode::Key5);
    }
    if str_eq(s, "Key6") {
        return Some(VirtualKeyCode::Key6);
    }
    if str_eq(s, "Key7") {
        return Some(VirtualKeyCode::Key7);
    }
    if str_eq(s, "Key8") {
        return Some(VirtualKeyCode::Key8);
    }
    if str_eq(s, "Key9") {
        return Some(VirtualKeyCode::Key0);
    }
    if str_eq(s, "Key0") {
        return Some(VirtualKeyCode::Key0);
    }
    if str_eq(s, "A") {
        return Some(VirtualKeyCode::A);
    }
    if str_eq(s, "B") {
        return Some(VirtualKeyCode::B);
    }
    if str_eq(s, "C") {
        return Some(VirtualKeyCode::C);
    }
    if str_eq(s, "D") {
        return Some(VirtualKeyCode::D);
    }
    if str_eq(s, "E") {
        return Some(VirtualKeyCode::E);
    }
    if str_eq(s, "F") {
        return Some(VirtualKeyCode::F);
    }
    if str_eq(s, "G") {
        return Some(VirtualKeyCode::G);
    }
    if str_eq(s, "H") {
        return Some(VirtualKeyCode::H);
    }
    if str_eq(s, "I") {
        return Some(VirtualKeyCode::I);
    }
    if str_eq(s, "J") {
        return Some(VirtualKeyCode::J);
    }
    if str_eq(s, "K") {
        return Some(VirtualKeyCode::K);
    }
    if str_eq(s, "L") {
        return Some(VirtualKeyCode::L);
    }
    if str_eq(s, "M") {
        return Some(VirtualKeyCode::M);
    }
    if str_eq(s, "N") {
        return Some(VirtualKeyCode::N);
    }
    if str_eq(s, "O") {
        return Some(VirtualKeyCode::O);
    }
    if str_eq(s, "P") {
        return Some(VirtualKeyCode::P);
    }
    if str_eq(s, "Q") {
        return Some(VirtualKeyCode::Q);
    }
    if str_eq(s, "R") {
        return Some(VirtualKeyCode::R);
    }
    if str_eq(s, "S") {
        return Some(VirtualKeyCode::S);
    }
    if str_eq(s, "T") {
        return Some(VirtualKeyCode::T);
    }
    if str_eq(s, "U") {
        return Some(VirtualKeyCode::U);
    }
    if str_eq(s, "V") {
        return Some(VirtualKeyCode::V);
    }
    if str_eq(s, "W") {
        return Some(VirtualKeyCode::W);
    }
    if str_eq(s, "X") {
        return Some(VirtualKeyCode::X);
    }
    if str_eq(s, "Y") {
        return Some(VirtualKeyCode::Y);
    }
    if str_eq(s, "Z") {
        return Some(VirtualKeyCode::Z);
    }
    if str_eq(s, "Escape") {
        return Some(VirtualKeyCode::Escape);
    }
    if str_eq(s, "Return") {
        return Some(VirtualKeyCode::Return);
    }
    if str_eq(s, "Space") {
        return Some(VirtualKeyCode::Space);
    }
    if str_eq(s, "LControl") {
        return Some(VirtualKeyCode::LControl);
    }
    if str_eq(s, "LShift") {
        return Some(VirtualKeyCode::LShift);
    }
    None
}

/// The length, first and last character of a nonempty name; no two
/// stored names share it.
spec fn signature(s: Seq<char>) -> (int, char, char) {
    (s.len() as int, s[0], s[s.len() - 1])
}

proof fn lemma_name_signatures()
    ensures
        signature("A"@) == (1int, 'A', 'A'),
        signature("B"@) == (1int, 'B', 'B'),
        signature("Back"@) == (4int, 'B', 'k'),
        signature("C"@) == (1int, 'C', 'C'),
        signature("D"@) == (1int, 'D', 'D'),
        signature("Delete"@) == (6int, 'D', 'e'),
        signature("Down"@) == (4int, 'D', 'n'),
        signature("E"@) == (1int, 'E', 'E'),
        signature("End"@) == (3int, 'E', 'd'),
        signature("Escape"@) == (6int, 'E', 'e'),
        signature("F"@) == (1int, 'F', 'F'),
        signature("F1"@) == (2int, 'F', '1'),
        signature("F10"@) == (3int, 'F', '0'),
        signature("F11"@) == (3int, 'F', '1'),
        signature("F12"@) == (3int, 'F', '2'),
        signature("F2"@) == (2int, 'F', '2'),
        signature("F3"@) == (2int, 'F', '3'),
        signature("F4"@) == (2int, 'F', '4'),
        signature("F5"@) == (2int, 'F', '5'),
        signature("F6"@) == (2int, 'F', '6'),
        signature("F7"@) == (2int, 'F', '7'),
        signature("F8"@) == (2int, 'F', '8'),
        signature("F9"@) == (2int, 'F', '9'),
        signature("G"@) == (1int, 'G', 'G'),
        signature("H"@) == (1int, 'H', 'H'),
        signature("Home"@) == (4int, 'H', 'e'),
        signature("I"@) == (1int, 'I', 'I'),
        signature("Insert"@) == (6int, 'I', 't'),
        signature("J"@) == (1int, 'J', 'J'),
        signature("K"@) == (1int, 'K', 'K'),
        signature("Key0"@) == (4int, 'K', '0'),
        signature("Key1"@) == (4int, 'K', '1'),
        signature("Key2"@) == (4int, 'K', '2'),
        signature("Key3"@) == (4int, 'K', '3'),
        signature("Key4"@) == (4int, 'K', '4'),
        signature("Key5"@) == (4int, 'K', '5'),
        signature("Key6"@) == (4int, 'K', '6'),
        signature("Key7"@) == (4int, 'K', '7'),
        signature("Key8"@) == (4int, 'K', '8'),
        signature("Key9"@) == (4int, 'K', '9'),
        signature("L"@) == (1int, 'L', 'L'),
        signature("LControl"@) == (8int, 'L', 'l'),
        signature("LShift"@) == (6int, 'L', 't'),
        signature("Left"@) == (4int, 'L', 't'),
        signature("M"@) == (1int, 'M', 'M'),
        signature("N"@) == (1int, 'N', 'N'),
        signature("O"@) == (1int, 'O', 'O'),
        signature("P"@) == (1int, 'P', 'P'),
        signature("PageDown"@) == (8int, 'P', 'n'),
        signature("PageUp"@) == (6int, 'P', 'p'),
        signature("Pause"@) == (5int, 'P', 'e'),
        signature("Q"@) == (1int, 'Q', 'Q'),
        signature("R"@) == (1int, 'R', 'R'),
        signature("Return"@) == (6int, 'R', 'n'),
        signature("Right"@) == (5int, 'R', 't'),
        signature("S"@) == (1int, 'S', 'S'),
        signature("Snapshot"@) == (8int, 'S', 't'),
        signature("Space"@) == (5int, 'S', 'e'),
        signature("T"@) == (1int, 'T', 'T'),
        signature("U"@) == (1int, 'U', 'U'),
        signature("Up"@) == (2int, 'U', 'p'),
        signature("V"@) == (1int, 'V', 'V'),
        signature("W"@) == (1int, 'W', 'W'),
        signature("X"@) == (1int, 'X', 'X'),
        signature("Y"@) == (1int, 'Y', 'Y'),
        signature("Z"@) == (1int, 'Z', 'Z'),
{
    reveal_strlit("A");
    reveal_strlit("B");
    reveal_strlit("Back");
    reveal_strlit("C");
    reveal_strlit("D");
    reveal_strlit("Delete");
    reveal_strlit("Down");
    reveal_strlit("E");
    reveal_strlit("End");
    reveal_strlit("Escape");
    reveal_strlit("F");
    reveal_strlit("F1");
    reveal_strlit("F10");
    reveal_strlit("F11");
    reveal_strlit("F12");
    reveal_strlit("F2");
    reveal_strlit("F3");
    reveal_strlit("F4");
    reveal_strlit("F5");
    reveal_strlit("F6");
    reveal_strlit("F7");
    reveal_strlit("F8");
    reveal_strlit("F9");
    reveal_strlit("G");
    reveal_strlit("H");
    reveal_strlit("Home");
    reveal_strlit("I");
    reveal_strlit("Insert");
    reveal_strlit("J");
    reveal_strlit("K");
    reveal_strlit("Key0");
    reveal_strlit("Key1");
    reveal_strlit("Key2");
    reveal_strlit("Key3");
    reveal_strlit("Key4");
    reveal_strlit("Key5");
    reveal_strlit("Key6");
    reveal_strlit("Key7");
    reveal_strlit("Key8");
    reveal_strlit("Key9");
    reveal_strlit("L");
    reveal_strlit("LControl");
    reveal_strlit("LShift");
    reveal_strlit("Left");
    reveal_strlit("M");
    reveal_strlit("N");
    reveal_strlit("O");
    reveal_strlit("P");
    reveal_strlit("PageDown");
    reveal_strlit("PageUp");
    reveal_strlit("Pause");
    reveal_strlit("Q");
    reveal_strlit("R");
    reveal_strlit("Return");
    reveal_strlit("Right");
    reveal_strlit("S");
    reveal_strlit("Snapshot");
    reveal_strlit("Space");
    reveal_strlit("T");
    reveal_strlit("U");
    reveal_strlit("Up");
    reveal_strlit("V");
    reveal_strlit("W");
    reveal_strlit("X");
    reveal_strlit("Y");
    reveal_strlit("Z");
}

/// The key whose stored name has the signature `g`.
spec fn key_with_signature(g: (int, char, char)) -> Option<VirtualKeyCode> {
    if g == (4int, 'K', '1') {
        Some(VirtualKeyCode::Key1)
    } else if g == (4int, 'K', '2') {
        Some(VirtualKeyCode::Key2)
    } else if g == (4int, 'K', '3') {
        Some(VirtualKeyCode::Key3)
    } else if g == (4int, 'K', '4') {
        Some(VirtualKeyCode::Key4)
    } else if g == (4int, 'K', '5') {
        Some(VirtualKeyCode::Key5)
    } else if g == (4int, 'K', '6') {
        Some(VirtualKeyCode::Key6)
    } else if g == (4int, 'K', '7') {
        Some(VirtualKeyCode::Key7)
    } else if g == (4int, 'K', '8') {
        Some(VirtualKeyCode::Key8)
    } else if g == (4int, 'K', '9') {
        Some(VirtualKeyCode::Key9)
    } else if g == (4int, 'K', '0') {
        Some(VirtualKeyCode::Key0)
    } else if g == (1int, 'A', 'A') {
        Some(VirtualKeyCode::A)
    } else if g == (1int, 'B', 'B') {
        Some(VirtualKeyCode::B)
    } else if g == (1int, 'C', 'C') {
        Some(VirtualKeyCode::C)
    } else if g == (1int, 'D', 'D') {
        Some(VirtualKeyCode::D)
    } else if g == (1int, 'E', 'E') {
        Some(VirtualKeyCode::E)
    } else if g == (1int, 'F', 'F') {
        Some(VirtualKeyCode::F)
    } else if g == (1int, 'G', 'G') {
        Some(VirtualKeyCode::G)
    } else if g == (1int, 'H', 'H') {
        Some(VirtualKeyCode::H)
    } else if g == (1int, 'I', 'I') {
        Some(VirtualKeyCode::I)
    } else if g == (1int, 'J', 'J') {
        Some(VirtualKeyCode::J)
    } else if g == (1int, 'K', 'K') {
        Some(VirtualKeyCode::K)
    } else if g == (1int, 'L', 'L') {
        Some(VirtualKeyCode::L)
    } else if g == (1int, 'M', 'M') {
        Some(VirtualKeyCode::M)
    } else if g == (1int, 'N', 'N') {
        Some(VirtualKeyCode::N)
    } else if g == (1int, 'O', 'O') {
        Some(VirtualKeyCode::O)
    } else if g == (1int, 'P', 'P') {
        Some(VirtualKeyCode::P)
    } else if g == (1int, 'Q', 'Q') {
        Some(VirtualKeyCode::Q)
    } else if g == (1int, 'R', 'R') {
        Some(VirtualKeyCode::R)
    } else if g == (1int, 'S', 'S') {
        Some(VirtualKeyCode::S)
    } else if g == (1int, 'T', 'T') {
        Some(VirtualKeyCode::T)
    } else if g == (1int, 'U', 'U') {
        Some(VirtualKeyCode::U)
    } else if g == (1int, 'V', 'V') {
        Some(VirtualKeyCode::V)
    } else if g == (1int, 'W', 'W') {
        Some(VirtualKeyCode::W)
    } else if g == (1int, 'X', 'X') {
        Some(VirtualKeyCode::X)
    } else if g == (1int, 'Y', 'Y') {
        Some(VirtualKeyCode::Y)
    } else if g == (1int, 'Z', 'Z') {
        Some(VirtualKeyCode::Z)
    } else if g == (6int, 'E', 'e') {
        Some(VirtualKeyCode::Escape)
    } else if g == (2int, 'F', '1') {
        Some(VirtualKeyCode::F1)
    } else if g == (2int, 'F', '2') {
        Some(VirtualKeyCode::F2)
    } else if g == (2int, 'F', '3') {
        Some(VirtualKeyCode::F3)
    } else if g == (2int, 'F', '4') {
        Some(VirtualKeyCode::F4)
    } else if g == (2int, 'F', '5') {
        Some(VirtualKeyCode::F5)
    } else if g == (2int, 'F', '6') {
        Some(VirtualKeyCode::F6)
    } else if g == (2int, 'F', '7') {
        Some(VirtualKeyCode::F7)
    } else if g == (2int, 'F', '8') {
        Some(VirtualKeyCode::F8)
    } else if g == (2int, 'F', '9') {
        Some(VirtualKeyCode::F9)
    } else if g == (3int, 'F', '0') {
        Some(VirtualKeyCode::F10)
    } else if g == (3int, 'F', '1') {
        Some(VirtualKeyCode::F11)
    } else if g == (3int, 'F', '2') {
        Some(VirtualKeyCode::F12)
    } else if g == (8int, 'S', 't') {
        Some(VirtualKeyCode::Snapshot)
    } else if g == (5int, 'P', 'e') {
        Some(VirtualKeyCode::Pause)
    } else if g == (6int, 'I', 't') {
        Some(VirtualKeyCode::Insert)
    } else if g == (4int, 'H', 'e') {
        Some(VirtualKeyCode::Home)
    } else if g == (6int, 'D', 'e') {
        Some(VirtualKeyCode::Delete)
    } else if g == (3int, 'E', 'd') {
        Some(VirtualKeyCode::End)
    } else if g == (8int, 'P', 'n') {
        Some(VirtualKeyCode::PageDown)
    } else if g == (6int, 'P', 'p') {
        Some(VirtualKeyCode::PageUp)
    } else if g == (4int, 'L', 't') {
        Some(VirtualKeyCode::Left)
    } else if g == (2int, 'U', 'p') {
        Some(VirtualKeyCode::Up)
    } else if g == (5int, 'R', 't') {
        Some(VirtualKeyCode::Right)
    } else if g == (4int, 'D', 'n') {
        Some(VirtualKeyCode::Down)
    } else if g == (4int, 'B', 'k') {
        Some(VirtualKeyCode::Back)
    } else if g == (6int, 'R', 'n') {
        Some(VirtualKeyCode::Return)
    } else if g == (5int, 'S', 'e') {
        Some(VirtualKeyCode::Space)
    } else if g == (8int, 'L', 'l') {
        Some(VirtualKeyCode::LControl)
    } else if g == (6int, 'L', 't') {
        Some(VirtualKeyCode::LShift)
    } else {
        None
    }
}

/// A named key is the one its name's signature picks.
proof fn lemma_signature_picks_key(code: VirtualKeyCode)
    requires
        spec_vkcode_name(code).len() > 0,
    ensures
        key_with_signature(signature(spec_vkcode_name(code))) == Some(code),
{
    reveal_strlit("");
    lemma_name_signatures();
}

/// Two different keys never share a name, unless both have none.
pub proof fn lemma_key_names_distinct(k1: VirtualKeyCode, k2: VirtualKeyCode)
    requires
        k1 != k2,
        spec_vkcode_name(k1).len() > 0,
    ensures
        spec_vkcode_name(k1) != spec_vkcode_name(k2),
{
    lemma_signature_picks_key(k1);
    if spec_vkcode_name(k1) == spec_vkcode_name(k2) {
        lemma_signature_picks_key(k2);
    }
}

/// The keys whose stored names read back as themselves: the digit keys
/// but nine, the letters, Escape, Return, Space, left Control and left
/// Shift.
pub open spec fn read_back_by_name(k: VirtualKeyCode) -> bool {
    k == VirtualKeyCode::Key0 || k == VirtualKeyCode::Key1 || k == VirtualKeyCode::Key2 || k == VirtualKeyCode::Key3 || k == VirtualKeyCode::Key4 || k == VirtualKeyCode::Key5 || k == VirtualKeyCode::Key6 || k == VirtualKeyCode::Key7 || k == VirtualKeyCode::Key8 || k == VirtualKeyCode::A || k == VirtualKeyCode::B || k == VirtualKeyCode::C || k == VirtualKeyCode::D || k == VirtualKeyCode::E || k == VirtualKeyCode::F || k == VirtualKeyCode::G || k == VirtualKeyCode::H || k == VirtualKeyCode::I || k == VirtualKeyCode::J || k == VirtualKeyCode::K || k == VirtualKeyCode::L || k == VirtualKeyCode::M || k == VirtualKeyCode::N || k == VirtualKeyCode::O || k == VirtualKeyCode::P || k == VirtualKeyCode::Q || k == VirtualKeyCode::R || k == VirtualKeyCode::S || k == VirtualKeyCode::T || k == VirtualKeyCode::U || k == VirtualKeyCode::V || k == VirtualKeyCode::W || k == VirtualKeyCode::X || k == VirtualKeyCode::Y || k == VirtualKeyCode::Z || k == VirtualKeyCode::Escape || k == VirtualKeyCode::Return || k == VirtualKeyCode::Space || k == VirtualKeyCode::LControl || k == VirtualKeyCode::LShift
}

/// Storing one of these keys under its name and reading the name gives the
/// key back.
pub proof fn lemma_names_read_back(k: VirtualKeyCode)
    requires
        read_back_by_name(k),
    ensures
        spec_str_to_vkcode(spec_vkcode_name(k)) == Some(k),
{
    lemma_name_signatures();
}

/// A letter key is stored under its letter, and a digit key under `Key`
/// and its digit.
pub proof fn lemma_key_names_spell_keys(k: VirtualKeyCode)
    ensures
        vk_letter(k) >= 0 ==> spec_vkcode_name(k) == seq![(65 + vk_letter(k)) as char],
        vk_digit(k) >= 0 ==> spec_vkcode_name(k) == seq!['K', 'e', 'y', (48 + vk_digit(k)) as char],
{
    match k {
        VirtualKeyCode::A => {
            reveal_strlit("A");
            assert(seq!['A'] =~= "A"@);
        },
        VirtualKeyCode::B => {
            reveal_strlit("B");
            assert(seq!['B'] =~= "B"@);
        },
        VirtualKeyCode::C => {
            reveal_strlit("C");
            assert(seq!['C'] =~= "C"@);
        },
        VirtualKeyCode::D => {
            reveal_strlit("D");
            assert(seq!['D'] =~= "D"@);
        },
        VirtualKeyCode::E => {
            reveal_strlit("E");
            assert(seq!['E'] =~= "E"@);
        },
        VirtualKeyCode::F => {
            reveal_strlit("F");
            assert(seq!['F'] =~= "F"@);
        },
        VirtualKeyCode::G => {
            reveal_strlit("G");
            assert(seq!['G'] =~= "G"@);
        },
        VirtualKeyCode::H => {
            reveal_strlit("H");
            assert(seq!['H'] =~= "H"@);
        },
        VirtualKeyCode::I => {
            reveal_strlit("I");
            assert(seq!['I'] =~= "I"@);
        },
        VirtualKeyCode::J => {
            reveal_strlit("J");
            assert(seq!['J'] =~= "J"@);
        },
        VirtualKeyCode::K => {
            reveal_strlit("K");
            assert(seq!['K'] =~= "K"@);
        },
        VirtualKeyCode::L => {
            reveal_strlit("L");
            assert(seq!['L'] =~= "L"@);
        },
        VirtualKeyCode::M => {
            reveal_strlit("M");
            assert(seq!['M'] =~= "M"@);
        },
        VirtualKeyCode::N => {
            reveal_strlit("N");
            assert(seq!['N'] =~= "N"@);
        },
        VirtualKeyCode::O => {
            reveal_strlit("O");
            assert(seq!['O'] =~= "O"@);
        },
        VirtualKeyCode::P => {
            reveal_strlit("P");
            assert(seq!['P'] =~= "P"@);
        },
        VirtualKeyCode::Q => {
            reveal_strlit("Q");
            assert(seq!['Q'] =~= "Q"@);
        },
        VirtualKeyCode::R => {
            reveal_strlit("R");
            assert(seq!['R'] =~= "R"@);
        },
        VirtualKeyCode::S => {
            reveal_strlit("S");
            assert(seq!['S'] =~= "S"@);
        },
        VirtualKeyCode::T => {
            reveal_strlit("T");
            assert(seq!['T'] =~= "T"@);
        },
        VirtualKeyCode::U => {
            reveal_strlit("U");
            assert(seq!['U'] =~= "U"@);
        },
        VirtualKeyCode::V => {
            reveal_strlit("V");
            assert(seq!['V'] =~= "V"@);
        },
        VirtualKeyCode::W => {
            reveal_strlit("W");
            assert(seq!['W'] =~= "W"@);
        },
        VirtualKeyCode::X => {
            reveal_strlit("X");
            assert(seq!['X'] =~= "X"@);
        },
        VirtualKeyCode::Y => {
            reveal_strlit("Y");
            assert(seq!['Y'] =~= "Y"@);
        },
        VirtualKeyCode::Z => {
            reveal_strlit("Z");
            assert(seq!['Z'] =~= "Z"@);
        },
        VirtualKeyCode::Key0 => {
            reveal_strlit("Key0");
            assert(seq!['K', 'e', 'y', '0'] =~= "Key0"@);
        },
        VirtualKeyCode::Key1 => {
            reveal_strlit("Key1");
            assert(seq!['K', 'e', 'y', '1'] =~= "Key1"@);
        },
        VirtualKeyCode::Key2 => {
            reveal_strlit("Key2");
            assert(seq!['K', 'e', 'y', '2'] =~= "Key2"@);
        },
        VirtualKeyCode::Key3 => {
            reveal_strlit("Key3");
            assert(seq!['K', 'e', 'y', '3'] =~= "Key3"@);
        },
        VirtualKeyCode::Key4 => {
            reveal_strlit("Key4");
            assert(seq!['K', 'e', 'y', '4'] =~= "Key4"@);
        },
        VirtualKeyCode::Key5 => {
            reveal_strlit("Key5");
            assert(seq!['K', 'e', 'y', '5'] =~= "Key5"@);
        },
        VirtualKeyCode::Key6 => {
            reveal_strlit("Key6");
            assert(seq!['K', 'e', 'y', '6'] =~= "Key6"@);
        },
        VirtualKeyCode::Key7 => {
            reveal_strlit("Key7");
            assert(seq!['K', 'e', 'y', '7'] =~= "Key7"@);
        },
        VirtualKeyCode::Key8 => {
            reveal_strlit("Key8");
            assert(seq!['K', 'e', 'y', '8'] =~= "Key8"@);
        },
        VirtualKeyCode::Key9 => {
            reveal_strlit("Key9");
            assert(seq!['K', 'e', 'y', '9'] =~= "Key9"@);
        },
        _ => {},
    }
}

/// A single capital letter reads as the key of that letter; `Key` and a
/// digit from zero to eight read as the key of that digit, and `Key9` as
/// the key of zero.
pub proof fn lemma_letters_and_digits_read(k: VirtualKeyCode)
    ensures
        vk_letter(k) >= 0 ==> spec_str_to_vkcode(seq![(65 + vk_letter(k)) as char]) == Some(k),
        0 <= vk_digit(k) <= 8 ==> spec_str_to_vkcode(seq!['K', 'e', 'y', (48 + vk_digit(k)) as char]) == Some(k),
        spec_str_to_vkcode(seq!['K', 'e', 'y', '9']) == Some(VirtualKeyCode::Key0),
{
    lemma_name_signatures();
    reveal_strlit("Key9");
    assert(seq!['K', 'e', 'y', '9'] =~= "Key9"@);
    match k {
        VirtualKeyCode::A => {
            reveal_strlit("A");
            assert(seq!['A'] =~= "A"@);
        },
        VirtualKeyCode::B => {
            reveal_strlit("B");
            assert(seq!['B'] =~= "B"@);
        },
        VirtualKeyCode::C => {
            reveal_strlit("C");
            assert(seq!['C'] =~= "C"@);
        },
        VirtualKeyCode::D => {
            reveal_strlit("D");
            assert(seq!['D'] =~= "D"@);
        },
        VirtualKeyCode::E => {
            reveal_strlit("E");
            assert(seq!['E'] =~= "E"@);
        },
        VirtualKeyCode::F => {
            reveal_strlit("F");
            assert(seq!['F'] =~= "F"@);
        },
        VirtualKeyCode::G => {
            reveal_strlit("G");
            assert(seq!['G'] =~= "G"@);
        },
        VirtualKeyCode::H => {
            reveal_strlit("H");
            assert(seq!['H'] =~= "H"@);
        },
        VirtualKeyCode::I => {
            reveal_strlit("I");
            assert(seq!['I'] =~= "I"@);
        },
        VirtualKeyCode::J => {
            reveal_strlit("J");
            assert(seq!['J'] =~= "J"@);
        },
        VirtualKeyCode::K => {
            reveal_strlit("K");
            assert(seq!['K'] =~= "K"@);
        },
        VirtualKeyCode::L => {
            reveal_strlit("L");
            assert(seq!['L'] =~= "L"@);
        },
        VirtualKeyCode::M => {
            reveal_strlit("M");
            assert(seq!['M'] =~= "M"@);
        },
        VirtualKeyCode::N => {
            reveal_strlit("N");
            assert(seq!['N'] =~= "N"@);
        },
        VirtualKeyCode::O => {
            reveal_strlit("O");
            assert(seq!['O'] =~= "O"@);
        },
        VirtualKeyCode::P => {
            reveal_strlit("P");
            assert(seq!['P'] =~= "P"@);
        },
        VirtualKeyCode::Q => {
            reveal_strlit("Q");
            assert(seq!['Q'] =~= "Q"@);
        },
        VirtualKeyCode::R => {
            reveal_strlit("R");
            assert(seq!['R'] =~= "R"@);
        },
        VirtualKeyCode::S => {
            reveal_strlit("S");
            assert(seq!['S'] =~= "S"@);
        },
        VirtualKeyCode::T => {
            reveal_strlit("T");
            assert(seq!['T'] =~= "T"@);
        },
        VirtualKeyCode::U => {
            reveal_strlit("U");
            assert(seq!['U'] =~= "U"@);
        },
        VirtualKeyCode::V => {
            reveal_strlit("V");
            assert(seq!['V'] =~= "V"@);
        },
        VirtualKeyCode::W => {
            reveal_strlit("W");
            assert(seq!['W'] =~= "W"@);
        },
        VirtualKeyCode::X => {
            reveal_strlit("X");
            assert(seq!['X'] =~= "X"@);
        },
        VirtualKeyCode::Y => {
            reveal_strlit("Y");
            assert(seq!['Y'] =~= "Y"@);
        },
        VirtualKeyCode::Z => {
            reveal_strlit("Z");
            assert(seq!['Z'] =~= "Z"@);
        },
        VirtualKeyCode::Key0 => {
            reveal_strlit("Key0");
            assert(seq!['K', 'e', 'y', '0'] =~= "Key0"@);
        },
        VirtualKeyCode::Key1 => {
            reveal_strlit("Key1");
            assert(seq!['K', 'e', 'y', '1'] =~= "Key1"@);
        },
        VirtualKeyCode::Key2 => {
            reveal_strlit("Key2");
            assert(seq!['K', 'e', 'y', '2'] =~= "Key2"@);
        },
        VirtualKeyCode::Key3 => {
            reveal_strlit("Key3");
            assert(seq!['K', 'e', 'y', '3'] =~= "Key3"@);
        },
        VirtualKeyCode::Key4 => {
            reveal_strlit("Key4");
            assert(seq!['K', 'e', 'y', '4'] =~= "Key4"@);
        },
        VirtualKeyCode::Key5 => {
            reveal_strlit("Key5");
            assert(seq!['K', 'e', 'y', '5'] =~= "Key5"@);
        },
        VirtualKeyCode::Key6 => {
            reveal_strlit("Key6");
            assert(seq!['K', 'e', 'y', '6'] =~= "Key6"@);
        },
        VirtualKeyCode::Key7 => {
            reveal_strlit("Key7");
            assert(seq!['K', 'e', 'y', '7'] =~= "Key7"@);
        },
        VirtualKeyCode::Key8 => {
            reveal_strlit("Key8");
            assert(seq!['K', 'e', 'y', '8'] =~= "Key8"@);
        },
        VirtualKeyCode::Key9 => {
            reveal_strlit("Key9");
            assert(seq!['K', 'e', 'y', '9'] =~= "Key9"@);
        },
        _ => {},
    }
}

/// A function key is stored under `F` and its number, for F1 to F12.
pub proof fn lemma_function_key_names(k: VirtualKeyCode)
    ensures
        1 <= vk_function(k) <= 9 ==> spec_vkcode_name(k) == seq!['F', (48 + vk_function(k)) as char],
        10 <= vk_function(k) <= 12 ==> spec_vkcode_name(k) == seq!['F', '1', (38 + vk_function(k)) as char],
{
    match k {
        VirtualKeyCode::F1 => {
            reveal_strlit("F1");
            assert(seq!['F', '1'] =~= "F1"@);
        },
        VirtualKeyCode::F2 => {
            reveal_strlit("F2");
            assert(seq!['F', '2'] =~= "F2"@);
        },
        VirtualKeyCode::F3 => {
            reveal_strlit("F3");
            assert(seq!['F', '3'] =~= "F3"@);
        },
        VirtualKeyCode::F4 => {
            reveal_strlit("F4");
            assert(seq!['F', '4'] =~= "F4"@);
        },
        VirtualKeyCode::F5 => {
            reveal_strlit("F5");
            assert(seq!['F', '5'] =~= "F5"@);
        },
        VirtualKeyCode::F6 => {
            reveal_strlit("F6");
            assert(seq!['F', '6'] =~= "F6"@);
        },
        VirtualKeyCode::F7 => {
            reveal_strlit("F7");
            assert(seq!['F', '7'] =~= "F7"@);
        },
        VirtualKeyCode::F8 => {
            reveal_strlit("F8");
            assert(seq!['F', '8'] =~= "F8"@);
        },
        VirtualKeyCode::F9 => {
            reveal_strlit("F9");
            assert(seq!['F', '9'] =~= "F9"@);
        },
        VirtualKeyCode::F10 => {
            reveal_strlit("F10");
            assert(seq!['F', '1', '0'] =~= "F10"@);
        },
        VirtualKeyCode::F11 => {
            reveal_strlit("F11");
            assert(seq!['F', '1', '1'] =~= "F11"@);
        },
        VirtualKeyCode::F12 => {
            reveal_strlit("F12");
            assert(seq!['F', '1', '2'] =~= "F12"@);
        },
        _ => {},
    }
}

/// Storing a key under its name and reading the name back gives the key,
/// for every key that some name reads as.
pub proof fn lemma_key_name_round_trip(code: VirtualKeyCode)
    requires
        exists|s: Seq<char>| spec_str_to_vkcode(s) == Some(code),
    ensures
        spec_str_to_vkcode(spec_vkcode_name(code)) == Some(code),
{
    lemma_name_signatures();
}

/// A bound key.
#[derive(Clone, Copy, Debug, PartialEq, Eq, Structural)]
pub struct VKeyCode(pub VirtualKeyCode);

impl VKeyCode {
    pub fn code(&self) -> (r: VirtualKeyCode)
        ensures
            r == self.0,
    {
        self.0
    }
}

/// The bindings of the general controls.
#[derive(Clone, Copy, Debug, PartialEq, Eq, Structural)]
pub struct General {
    pub back: Option<VKeyCode>,
    pub forward: Option<VKeyCode>,
    pub left: Option<VKeyCode>,
    pub right: Option<VKeyCode>,
    pub dodge: Option<VKeyCode>,
    pub crouch: Option<VKeyCode>,
    pub jump: Option<VKeyCode>,
    pub attack_1: Option<VKeyCode>,
    pub attack_2: Option<VKeyCode>,
    pub interact: Option<VKeyCode>,
    pub mount: Option<VKeyCode>,
    pub skill_1: Option<VKeyCode>,
    pub skill_2: Option<VKeyCode>,
    pub skill_3: Option<VKeyCode>,
    pub use_item: Option<VKeyCode>,
    pub chat: Option<VKeyCode>,
    pub inventory: Option<VKeyCode>,
    pub pause: Option<VKeyCode>,
}

/// The bindings used while mounted.
#[derive(Clone, Copy, Debug, PartialEq, Eq, Structural)]
pub struct Mount {
    pub dismount: Option<VKeyCode>,
}

/// All key bindings.
#[derive(Clone, Copy, Debug, PartialEq, Eq, Structural)]
pub struct Keybinds {
    pub general: General,
    pub mount: Mount,
}

/// The default bindings.
pub open spec fn spec_default_keybinds() -> Keybinds {
    Keybinds {
        general: General {
            back: Some(VKeyCode(VirtualKeyCode::S)),
            forward: Some(VKeyCode(VirtualKeyCode::W)),
            left: Some(VKeyCode(VirtualKeyCode::A)),
            right: Some(VKeyCode(VirtualKeyCode::D)),
            dodge: Some(VKeyCode(VirtualKeyCode::LShift)),
            crouch: Some(VKeyCode(VirtualKeyCode::LControl)),
            jump: Some(VKeyCode(VirtualKeyCode::Space)),
            attack_1: None,
            attack_2: None,
            interact: None,
            mount: Some(VKeyCode(VirtualKeyCode::M)),
            skill_1: None,
            skill_2: None,
            skill_3: None,
            use_item: Some(VKeyCode(VirtualKeyCode::Q)),
            chat: Some(VKeyCode(VirtualKeyCode::Return)),
            inventory: Some(VKeyCode(VirtualKeyCode::I)),
            pause: Some(VKeyCode(VirtualKeyCode::Escape)),
        },
        mount: Mount { dismount: Some(VKeyCode(VirtualKeyCode::M)) },
    }
}

impl Keybinds {
    /// The default bindings.
    pub fn default() -> (r: Keybinds)
        ensures
            r == spec_default_keybinds(),
    {
        Keybinds {
            general: General {
                back: Some(VKeyCode(VirtualKeyCode::S)),
                forward: Some(VKeyCode(VirtualKeyCode::W)),
                left: Some(VKeyCode(VirtualKeyCode::A)),
                right: Some(VKeyCode(VirtualKeyCode::D)),
                dodge: Some(VKeyCode(VirtualKeyCode::LShift)),
                crouch: Some(VKeyCode(VirtualKeyCode::LControl)),
                jump: Some(VKeyCode(VirtualKeyCode::Space)),
                attack_1: None,
                attack_2: None,
                interact: None,
                mount: Some(VKeyCode(VirtualKeyCode::M)),
                skill_1: None,
                skill_2: None,
                skill_3: None,
                use_item: Some(VKeyCode(VirtualKeyCode::Q)),
                chat: Some(VKeyCode(VirtualKeyCode::Return)),
                inventory: Some(VKeyCode(VirtualKeyCode::I)),
                pause: Some(VKeyCode(VirtualKeyCode::Escape)),
            },
            mount: Mount { dismount: Some(VKeyCode(VirtualKeyCode::M)) },
        }
    }

    /// The bindings to use after `user_keys` were read from the user's file.
    /// Bindings equal to the defaults are kept as they are. Otherwise each
    /// binding the file gives is kept, and each one it leaves out is taken
    /// from the defaults.
    pub fn complete(user_keys: Keybinds) -> (r: Keybinds)
        ensures
            r == spec_complete(user_keys),
    {
        let default_keys = Keybinds::default();
        if user_keys == default_keys {
            user_keys
        } else {
            let general = user_keys.general;
            let mount = user_keys.mount;
            let d = default_keys.general;
            Keybinds {
                general: General {
                    back: fill(general.back, d.back),
                    forward: fill(general.forward, d.forward),
                    left: fill(general.left, d.left),
                    right: fill(general.right, d.right),
                    dodge: fill(general.dodge, d.dodge),
                    crouch: fill(general.crouch, d.crouch),
                    jump: fill(general.jump, d.jump),
                    attack_1: fill(general.attack_1, d.attack_1),
                    attack_2: fill(general.attack_2, d.attack_2),
                    interact: fill(general.interact, d.interact),
                    skill_1: fill(general.skill_1, d.skill_1),
                    skill_2: fill(general.skill_2, d.skill_2),
                    skill_3: fill(general.skill_3, d.skill_3),
                    use_item: fill(general.use_item, d.use_item),
                    mount: fill(general.mount, d.mount),
                    chat: fill(general.chat, d.chat),
                    inventory: fill(general.inventory, d.inventory),
                    pause: fill(general.pause, d.pause),
                },
                mount: Mount { dismount: fill(mount.dismount, default_keys.mount.dismount) },
            }
        }
    }
}

/// A binding from the user's file, or the default where the file has none.
pub open spec fn spec_fill(user: Option<VKeyCode>, default: Option<VKeyCode>) -> Option<VKeyCode> {
    match user {
        Some(k) => Some(k),
        None => default,
    }
}

fn fill(user: Option<VKeyCode>, default: Option<VKeyCode>) -> (r: Option<VKeyCode>)
    ensures
        r == spec_fill(user, default),
{
    match user {
        Some(k) => Some(k),
        None => default,
    }
}

/// The bindings made from the user's bindings `u`: the defaults when `u`
/// is the defaults; else each binding of `u`, or the default where `u` has
/// none.
pub open spec fn spec_complete(u: Keybinds) -> Keybinds {
    let d = spec_default_keybinds();
    if u == d {
        u
    } else {
        Keybinds {
            general: General {
                back: spec_fill(u.general.back, d.general.back),
                forward: spec_fill(u.general.forward, d.general.forward),
                left: spec_fill(u.general.left, d.general.left),
                right: spec_fill(u.general.right, d.general.right),
                dodge: spec_fill(u.general.dodge, d.general.dodge),
                crouch: spec_fill(u.general.crouch, d.general.crouch),
                jump: spec_fill(u.general.jump, d.general.jump),
                attack_1: spec_fill(u.general.attack_1, d.general.attack_1),
                attack_2: spec_fill(u.general.attack_2, d.general.attack_2),
                interact: spec_fill(u.general.interact, d.general.interact),
                skill_1: spec_fill(u.general.skill_1, d.general.skill_1),
                skill_2: spec_fill(u.general.skill_2, d.general.skill_2),
                skill_3: spec_fill(u.general.skill_3, d.general.skill_3),
                use_item: spec_fill(u.general.use_item, d.general.use_item),
                mount: spec_fill(u.general.mount, d.general.mount),
                chat: spec_fill(u.general.chat, d.general.chat),
                inventory: spec_fill(u.general.inventory, d.general.inventory),
                pause: spec_fill(u.general.pause, d.general.pause),
            },
            mount: Mount { dismount: spec_fill(u.mount.dismount, d.mount.dismount) },
        }
    }
}

/// Completion keeps every binding the user's file gives and takes each
/// missing one from the defaults, also where the file holds exactly the
/// defaults.
pub proof fn lemma_complete_keeps_and_fills(u: Keybinds)
    ensures
        ({
            let d = spec_default_keybinds();
            let k = spec_complete(u);
            &&& k.general.back == spec_fill(u.general.back, d.general.back)
            &&& k.general.forward == spec_fill(u.general.forward, d.general.forward)
            &&& k.general.left == spec_fill(u.general.left, d.general.left)
            &&& k.general.right == spec_fill(u.general.right, d.general.right)
            &&& k.general.dodge == spec_fill(u.general.dodge, d.general.dodge)
            &&& k.general.crouch == spec_fill(u.general.crouch, d.general.crouch)
            &&& k.general.jump == spec_fill(u.general.jump, d.general.jump)
            &&& k.general.attack_1 == spec_fill(u.general.attack_1, d.general.attack_1)
            &&& k.general.attack_2 == spec_fill(u.general.attack_2, d.general.attack_2)
            &&& k.general.interact == spec_fill(u.general.interact, d.general.interact)
            &&& k.general.mount == spec_fill(u.general.mount, d.general.mount)
            &&& k.general.skill_1 == spec_fill(u.general.skill_1, d.general.skill_1)
            &&& k.general.skill_2 == spec_fill(u.general.skill_2, d.general.skill_2)
            &&& k.general.skill_3 == spec_fill(u.general.skill_3, d.general.skill_3)
            &&& k.general.use_item == spec_fill(u.general.use_item, d.general.use_item)
            &&& k.general.chat == spec_fill(u.general.chat, d.general.chat)
            &&& k.general.inventory == spec_fill(u.general.inventory, d.general.inventory)
            &&& k.general.pause == spec_fill(u.general.pause, d.general.pause)
            &&& k.mount.dismount == spec_fill(u.mount.dismount, d.mount.dismount)
        }),
{
}

/// After completion no binding that has a default is missing.
pub proof fn lemma_complete_binds_defaults(u: Keybinds)
    ensures
        spec_complete(u).general.forward is Some,
        spec_complete(u).general.back is Some,
        spec_complete(u).general.left is Some,
        spec_complete(u).general.right is Some,
        spec_complete(u).general.jump is Some,
        spec_complete(u).general.dodge is Some,
        spec_complete(u).general.crouch is Some,
        spec_complete(u).general.mount is Some,
        spec_complete(u).general.inventory is Some,
        spec_complete(u).general.use_item is Some,
        spec_complete(u).general.pause is Some,
        spec_complete(u).general.chat is Some,
        spec_complete(u).mount.dismount is Some,
{
}

} // verus!
