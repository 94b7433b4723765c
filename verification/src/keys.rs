//! Decoding terminal input bytes into key events.
//!
//! An interactive application sees raw bytes on its input: escape
//! sequences for arrows and function keys, control bytes, or UTF-8 encoded
//! characters. [`parse_key_event`] turns one input frame into a key event
//! following the common terminal conventions.

use vstd::prelude::*;

use crate::text::utf8_to_str;

verus! {

/// The modifier keys held for a key event.
#[derive(Debug, Clone, Copy, PartialEq, Eq, Structural)]
pub struct KeyModifiers {
    pub shift: bool,
    pub control: bool,
    pub alt: bool,
}

/// No modifier held.
#[verifier::allow_in_spec]
pub fn mods_none() -> KeyModifiers
    returns
        (KeyModifiers { shift: false, control: false, alt: false }),
{
    KeyModifiers { shift: false, control: false, alt: false }
}

/// Only shift held.
#[verifier::allow_in_spec]
pub fn mods_shift() -> KeyModifiers
    returns
        (KeyModifiers { shift: true, control: false, alt: false }),
{
    KeyModifiers { shift: true, control: false, alt: false }
}

/// Only control held.
#[verifier::allow_in_spec]
pub fn mods_control() -> KeyModifiers
    returns
        (KeyModifiers { shift: false, control: true, alt: false }),
{
    KeyModifiers { shift: false, control: true, alt: false }
}

/// Only alt held.
#[verifier::allow_in_spec]
pub fn mods_alt() -> KeyModifiers
    returns
        (KeyModifiers { shift: false, control: false, alt: true }),
{
    KeyModifiers { shift: false, control: false, alt: true }
}

/// The key a terminal input frame names.
#[derive(Debug, Clone, Copy, PartialEq, Eq, Structural)]
pub enum KeyCode {
    Up,
    Down,
    Right,
    Left,
    Home,
    End,
    Insert,
    Delete,
    PageUp,
    PageDown,
    /// A function key, by number.
    F(u8),
    Esc,
    Enter,
    Tab,
    BackTab,
    Backspace,
    /// A printable character.
    Char(char),
}

/// A key with the modifiers held for it.
#[derive(Debug, Clone, Copy, PartialEq, Eq, Structural)]
pub struct KeyEvent {
    pub code: KeyCode,
    pub modifiers: KeyModifiers,
}

impl KeyEvent {
    /// The event for `code` with `modifiers` held.
    pub fn new(code: KeyCode, modifiers: KeyModifiers) -> (r: KeyEvent)
        ensures
            r == (KeyEvent { code, modifiers }),
    {
        KeyEvent { code, modifiers }
    }
}

/// An ASCII upper-case letter mapped to its lower-case form; anything else
/// is left as it is.
pub open spec fn spec_ascii_lower(c: char) -> char {
    if 65 <= c as u32 <= 90 {
        ((c as u32 + 32) as u8) as char
    } else {
        c
    }
}

/// The event for a character decoded from UTF-8 input: an ASCII
/// upper-case letter arrives lower-cased with shift held, any other
/// character arrives as it is with no modifier.
pub open spec fn spec_char_event(c: char) -> KeyEvent {
    if 65 <= c as u32 <= 90 {
        KeyEvent { code: KeyCode::Char(spec_ascii_lower(c)), modifiers: mods_shift() }
    } else {
        KeyEvent { code: KeyCode::Char(c), modifiers: mods_none() }
    }
}

/// The fallback decoding of an input frame: when the bytes are valid
/// UTF-8 and non-empty, the event for their first character.
pub open spec fn spec_parse_utf8_char(bytes: Seq<u8>) -> Option<KeyEvent> {
    if vstd::utf8::valid_utf8(bytes) && vstd::utf8::decode_utf8(bytes).len() > 0 {
        Some(spec_char_event(vstd::utf8::decode_utf8(bytes)[0]))
    } else {
        None
    }
}

/// The key event named by one terminal input frame.
///
/// The table follows the common terminal conventions: `ESC [`-prefixed
/// sequences for arrows, home and end, editing keys and high function
/// keys, `ESC O`-prefixed sequences for the low function keys, the control
/// bytes for enter, tab, backspace and control-letter chords, a lone
/// escape byte for the escape key, and `ESC` followed by a letter for an
/// alt chord. Anything else is read as a UTF-8 character; an invalid or
/// empty frame names no key.
pub open spec fn spec_parse_key(b: Seq<u8>) -> Option<KeyEvent> {
    if b.len() == 0 {
        None
    } else if b.len() == 3 && b[0] == 27 && b[1] == 91 && b[2] == 65 {
        Some(KeyEvent { code: KeyCode::Up, modifiers: mods_none() })
    } else if b.len() == 3 && b[0] == 27 && b[1] == 91 && b[2] == 66 {
        Some(KeyEvent { code: KeyCode::Down, modifiers: mods_none() })
    } else if b.len() == 3 && b[0] == 27 && b[1] == 91 && b[2] == 67 {
        Some(KeyEvent { code: KeyCode::Right, modifiers: mods_none() })
    } else if b.len() == 3 && b[0] == 27 && b[1] == 91 && b[2] == 68 {
        Some(KeyEvent { code: KeyCode::Left, modifiers: mods_none() })
    } else if b.len() == 6 && b[0] == 27 && b[1] == 91 && b[2] == 49 && b[3] == 59 && b[4] == 50
        && 65 <= b[5] <= 68 {
        Some(KeyEvent { code: spec_arrow(b[5]), modifiers: mods_shift() })
    } else if b.len() == 6 && b[0] == 27 && b[1] == 91 && b[2] == 49 && b[3] == 59 && b[4] == 53
        && 65 <= b[5] <= 68 {
        Some(KeyEvent { code: spec_arrow(b[5]), modifiers: mods_control() })
    } else if b.len() == 3 && b[0] == 27 && (b[1] == 91 || b[1] == 79) && b[2] == 72 {
        Some(KeyEvent { code: KeyCode::Home, modifiers: mods_none() })
    } else if b.len() == 3 && b[0] == 27 && (b[1] == 91 || b[1] == 79) && b[2] == 70 {
        Some(KeyEvent { code: KeyCode::End, modifiers: mods_none() })
    } else if b.len() == 4 && b[0] == 27 && b[1] == 91 && b[2] == 50 && b[3] == 126 {
        Some(KeyEvent { code: KeyCode::Insert, modifiers: mods_none() })
    } else if b.len() == 4 && b[0] == 27 && b[1] == 91 && b[2] == 51 && b[3] == 126 {
        Some(KeyEvent { code: KeyCode::Delete, modifiers: mods_none() })
    } else if b.len() == 4 && b[0] == 27 && b[1] == 91 && b[2] == 53 && b[3] == 126 {
        Some(KeyEvent { code: KeyCode::PageUp, modifiers: mods_none() })
    } else if b.len() == 4 && b[0] == 27 && b[1] == 91 && b[2] == 54 && b[3] == 126 {
        Some(KeyEvent { code: KeyCode::PageDown, modifiers: mods_none() })
    } else if b.len() == 3 && b[0] == 27 && b[1] == 79 && 80 <= b[2] <= 83 {
        Some(KeyEvent { code: KeyCode::F((b[2] - 79) as u8), modifiers: mods_none() })
    } else if b.len() == 5 && b[0] == 27 && b[1] == 91 && b[2] == 49 && b[3] == 53 && b[4] == 126 {
        Some(KeyEvent { code: KeyCode::F(5), modifiers: mods_none() })
    } else if b.len() == 5 && b[0] == 27 && b[1] == 91 && b[2] == 49 && b[3] == 55 && b[4] == 126 {
        Some(KeyEvent { code: KeyCode::F(6), modifiers: mods_none() })
    } else if b.len() == 5 && b[0] == 27 && b[1] == 91 && b[2] == 49 && b[3] == 56 && b[4] == 126 {
        Some(KeyEvent { code: KeyCode::F(7), modifiers: mods_none() })
    } else if b.len() == 5 && b[0] == 27 && b[1] == 91 && b[2] == 49 && b[3] == 57 && b[4] == 126 {
        Some(KeyEvent { code: KeyCode::F(8), modifiers: mods_none() })
    } else if b.len() == 5 && b[0] == 27 && b[1] == 91 && b[2] == 50 && b[3] == 48 && b[4] == 126 {
        Some(KeyEvent { code: KeyCode::F(9), modifiers: mods_none() })
    } else if b.len() == 5 && b[0] == 27 && b[1] == 91 && b[2] == 50 && b[3] == 49 && b[4] == 126 {
        Some(KeyEvent { code: KeyCode::F(10), modifiers: mods_none() })
    } else if b.len() == 5 && b[0] == 27 && b[1] == 91 && b[2] == 50 && b[3] == 51 && b[4] == 126 {
        Some(KeyEvent { code: KeyCode::F(11), modifiers: mods_none() })
    } else if b.len() == 5 && b[0] == 27 && b[1] == 91 && b[2] == 50 && b[3] == 52 && b[4] == 126 {
        Some(KeyEvent { code: KeyCode::F(12), modifiers: mods_none() })
    } else if b.len() == 1 && b[0] == 27 {
        Some(KeyEvent { code: KeyCode::Esc, modifiers: mods_none() })
    } else if b.len() == 1 && b[0] == 13 {
        Some(KeyEvent { code: KeyCode::Enter, modifiers: mods_none() })
    } else if b.len() == 1 && b[0] == 9 {
        Some(KeyEvent { code: KeyCode::Tab, modifiers: mods_none() })
    } else if b.len() == 3 && b[0] == 27 && b[1] == 91 && b[2] == 90 {
        Some(KeyEvent { code: KeyCode::BackTab, modifiers: mods_shift() })
    } else if b.len() == 1 && (b[0] == 127 || b[0] == 8) {
        Some(KeyEvent { code: KeyCode::Backspace, modifiers: mods_none() })
    } else if b.len() == 1 && b[0] == 32 {
        Some(KeyEvent { code: KeyCode::Char(' '), modifiers: mods_none() })
    } else if b.len() == 1 && 1 <= b[0] <= 26 {
        Some(
            KeyEvent { code: KeyCode::Char(((b[0] + 96) as u8) as char), modifiers: mods_control() },
        )
    } else if b.len() == 1 && 33 <= b[0] <= 126 {
        if 65 <= b[0] <= 90 {
            Some(
                KeyEvent {
                    code: KeyCode::Char(((b[0] + 32) as u8) as char),
                    modifiers: mods_shift(),
                },
            )
        } else {
            Some(KeyEvent { code: KeyCode::Char(b[0] as char), modifiers: mods_none() })
        }
    } else if b.len() == 2 && b[0] == 27 && (65 <= b[1] <= 90 || 97 <= b[1] <= 122) {
        if 65 <= b[1] <= 90 {
            Some(
                KeyEvent { code: KeyCode::Char(((b[1] + 32) as u8) as char), modifiers: mods_alt() },
            )
        } else {
            Some(KeyEvent { code: KeyCode::Char(b[1] as char), modifiers: mods_alt() })
        }
    } else {
        spec_parse_utf8_char(b)
    }
}

/// The arrow key named by the final byte of its escape sequence.
pub open spec fn spec_arrow(b: u8) -> KeyCode {
    if b == 65 {
        KeyCode::Up
    } else if b == 66 {
        KeyCode::Down
    } else if b == 67 {
        KeyCode::Right
    } else {
        KeyCode::Left
    }
}

/// The arrow key named by the final byte of its escape sequence.
fn arrow(b: u8) -> (r: KeyCode)
    requires
        65 <= b <= 68,
    ensures
        r == spec_arrow(b),
{
    if b == 65 {
        KeyCode::Up
    } else if b == 66 {
        KeyCode::Down
    } else if b == 67 {
        KeyCode::Right
    } else {
        KeyCode::Left
    }
}

/// The fallback decoding of an input frame as a UTF-8 character; see
/// [`spec_parse_utf8_char`].
fn parse_utf8_char(data: &[u8]) -> (r: Option<KeyEvent>)
    ensures
        r == spec_parse_utf8_char(data@),
{
    let s = match utf8_to_str(data) {
        Some(s) => s,
        None => {
            return None;
        },
    };
    if s.unicode_len() == 0 {
        return None;
    }
    let c = s.get_char(0);
    let u = c as u32;
    if 65 <= u && u <= 90 {
        Some(KeyEvent { code: KeyCode::Char(((u + 32) as u8) as char), modifiers: mods_shift() })
    } else {
        Some(KeyEvent { code: KeyCode::Char(c), modifiers: mods_none() })
    }
}

/// The key event named by one terminal input frame; see
/// [`spec_parse_key`].
pub fn parse_key_event(data: &[u8]) -> (r: Option<KeyEvent>)
    ensures
        r == spec_parse_key(data@),
{
    let n = data.len();
    if n == 0 {
        None
    } else if n == 3 && data[0] == 27 && data[1] == 91 && 65 <= data[2] && data[2] <= 68 {
        Some(KeyEvent { code: arrow(data[2]), modifiers: mods_none() })
    } else if n == 6 && data[0] == 27 && data[1] == 91 && data[2] == 49 && data[3] == 59 && data[4]
        == 50 && 65 <= data[5] && data[5] <= 68 {
        Some(KeyEvent { code: arrow(data[5]), modifiers: mods_shift() })
    } else if n == 6 && data[0] == 27 && data[1] == 91 && data[2] == 49 && data[3] == 59 && data[4]
        == 53 && 65 <= data[5] && data[5] <= 68 {
        Some(KeyEvent { code: arrow(data[5]), modifiers: mods_control() })
    } else if n == 3 && data[0] == 27 && (data[1] == 91 || data[1] == 79) && data[2] == 72 {
        Some(KeyEvent { code: KeyCode::Home, modifiers: mods_none() })
    } else if n == 3 && data[0] == 27 && (data[1] == 91 || data[1] == 79) && data[2] == 70 {
        Some(KeyEvent { code: KeyCode::End, modifiers: mods_none() })
    } else if n == 4 && data[0] == 27 && data[1] == 91 && data[2] == 50 && data[3] == 126 {
        Some(KeyEvent { code: KeyCode::Insert, modifiers: mods_none() })
    } else if n == 4 && data[0] == 27 && data[1] == 91 && data[2] == 51 && data[3] == 126 {
        Some(KeyEvent { code: KeyCode::Delete, modifiers: mods_none() })
    } else if n == 4 && data[0] == 27 && data[1] == 91 && data[2] == 53 && data[3] == 126 {
        Some(KeyEvent { code: KeyCode::PageUp, modifiers: mods_none() })
    } else if n == 4 && data[0] == 27 && data[1] == 91 && data[2] == 54 && data[3] == 126 {
        Some(KeyEvent { code: KeyCode::PageDown, modifiers: mods_none() })
    } else if n == 3 && data[0] == 27 && data[1] == 79 && 80 <= data[2] && data[2] <= 83 {
        Some(KeyEvent { code: KeyCode::F(data[2] - 79), modifiers: mods_none() })
    } else if n == 5 && data[0] == 27 && data[1] == 91 && data[2] == 49 && data[3] == 53 && data[4]
        == 126 {
        Some(KeyEvent { code: KeyCode::F(5), modifiers: mods_none() })
    } else if n == 5 && data[0] == 27 && data[1] == 91 && data[2] == 49 && data[3] == 55 && data[4]
        == 126 {
        Some(KeyEvent { code: KeyCode::F(6), modifiers: mods_none() })
    } else if n == 5 && data[0] == 27 && data[1] == 91 && data[2] == 49 && data[3] == 56 && data[4]
        == 126 {
        Some(KeyEvent { code: KeyCode::F(7), modifiers: mods_none() })
    } else if n == 5 && data[0] == 27 && data[1] == 91 && data[2] == 49 && data[3] == 57 && data[4]
        == 126 {
        Some(KeyEvent { code: KeyCode::F(8), modifiers: mods_none() })
    } else if n == 5 && data[0] == 27 && data[1] == 91 && data[2] == 50 && data[3] == 48 && data[4]
        == 126 {
        Some(KeyEvent { code: KeyCode::F(9), modifiers: mods_none() })
    } else if n == 5 && data[0] == 27 && data[1] == 91 && data[2] == 50 && data[3] == 49 && data[4]
        == 126 {
        Some(KeyEvent { code: KeyCode::F(10), modifiers: mods_none() })
    } else if n == 5 && data[0] == 27 && data[1] == 91 && data[2] == 50 && data[3] == 51 && data[4]
        == 126 {
        Some(KeyEvent { code: KeyCode::F(11), modifiers: mods_none() })
    } else if n == 5 && data[0] == 27 && data[1] == 91 && data[2] == 50 && data[3] == 52 && data[4]
        == 126 {
        Some(KeyEvent { code: KeyCode::F(12), modifiers: mods_none() })
    } else if n == 1 && data[0] == 27 {
        Some(KeyEvent { code: KeyCode::Esc, modifiers: mods_none() })
    } else if n == 1 && data[0] == 13 {
        Some(KeyEvent { code: KeyCode::Enter, modifiers: mods_none() })
    } else if n == 1 && data[0] == 9 {
        Some(KeyEvent { code: KeyCode::Tab, modifiers: mods_none() })
    } else if n == 3 && data[0] == 27 && data[1] == 91 && data[2] == 90 {
        Some(KeyEvent { code: KeyCode::BackTab, modifiers: mods_shift() })
    } else if n == 1 && (data[0] == 127 || data[0] == 8) {
        Some(KeyEvent { code: KeyCode::Backspace, modifiers: mods_none() })
    } else if n == 1 && data[0] == 32 {
        Some(KeyEvent { code: KeyCode::Char(' '), modifiers: mods_none() })
    } else if n == 1 && 1 <= data[0] && data[0] <= 26 {
        Some(KeyEvent { code: KeyCode::Char((data[0] + 96) as char), modifiers: mods_control() })
    } else if n == 1 && 33 <= data[0] && data[0] <= 126 {
        if 65 <= data[0] && data[0] <= 90 {
            Some(KeyEvent { code: KeyCode::Char((data[0] + 32) as char), modifiers: mods_shift() })
        } else {
            Some(KeyEvent { code: KeyCode::Char(data[0] as char), modifiers: mods_none() })
        }
    } else if n == 2 && data[0] == 27 && (65 <= data[1] && data[1] <= 90 || 97 <= data[1] && data[1]
        <= 122) {
        if 65 <= data[1] && data[1] <= 90 {
            Some(KeyEvent { code: KeyCode::Char((data[1] + 32) as char), modifiers: mods_alt() })
        } else {
            Some(KeyEvent { code: KeyCode::Char(data[1] as char), modifiers: mods_alt() })
        }
    } else {
        parse_utf8_char(data)
    }
}

} // verus!
