//! The key tables of the *uinput*/*evdev* backend: Linux input event codes.

use vstd::prelude::*;

use crate::keyboard::input::KeyInput;
use crate::keyboard::key::{all_keys, first_key, first_key_from, key_index, lemma_first_key_found, Key};
use crate::keyboard::keycode::{keycode_of_vk, keycode_repr, KeyCode};
use crate::util::text::{char_debug, char_debug_text};
use crate::util::Error;

verus! {

/// The Linux input event code of a well-known key.
pub open spec fn evdev_code(key: Key) -> u16 {
    match key {
        Key::Alt => 0x38,
        Key::AltL => 0x38,
        Key::AltR => 0x64,
        Key::AltGr => 0x64,
        Key::Backspace => 0xE,
        Key::CapsLock => 0x3A,
        Key::Cmd => 0x7D,
        Key::CmdL => 0x7D,
        Key::CmdR => 0x7E,
        Key::Ctrl => 0x1D,
        Key::CtrlL => 0x1D,
        Key::CtrlR => 0x61,
        Key::Delete => 0x6F,
        Key::Down => 0x6C,
        Key::End => 0x6B,
        Key::Enter => 0x1C,
        Key::Esc => 0x1,
        Key::F1 => 0x3B,
        Key::F2 => 0x3C,
        Key::F3 => 0x3D,
        Key::F4 => 0x3E,
        Key::F5 => 0x3F,
        Key::F6 => 0x40,
        Key::F7 => 0x41,
        Key::F8 => 0x42,
        Key::F9 => 0x43,
        Key::F10 => 0x44,
        Key::F11 => 0x57,
        Key::F12 => 0x58,
        Key::F13 => 0xB7,
        Key::F14 => 0xB8,
        Key::F15 => 0xB9,
        Key::F16 => 0xBA,
        Key::F17 => 0xBB,
        Key::F18 => 0xBC,
        Key::F19 => 0xBD,
        Key::F20 => 0xBE,
        Key::Home => 0x66,
        Key::Left => 0x69,
        Key::PageDown => 0x6D,
        Key::PageUp => 0x68,
        Key::Right => 0x6A,
        Key::Shift => 0x2A,
        Key::ShiftL => 0x2A,
        Key::ShiftR => 0x36,
        Key::Space => 0x39,
        Key::Tab => 0xF,
        Key::Up => 0x67,
        Key::MediaPlayPause => 0xA4,
        Key::MediaVolumeMute => 0x71,
        Key::MediaVolumeDown => 0x72,
        Key::MediaVolumeUp => 0x73,
        Key::MediaPrevious => 0xA5,
        Key::MediaNext => 0xA3,
        Key::Insert => 0x6E,
        Key::Menu => 0x8B,
        Key::NumLock => 0x45,
        Key::Pause => 0x77,
        Key::PrintScreen => 0x63,
        Key::ScrollLock => 0x46,
    }
}

/// Maps a well-known [`Key`] to a Linux input event code.
pub fn evdev_key(key: Key) -> (code: u16)
    ensures
        code == evdev_code(key),
{
    match key {
        Key::Alt => 0x38,
        Key::AltL => 0x38,
        Key::AltR => 0x64,
        Key::AltGr => 0x64,
        Key::Backspace => 0xE,
        Key::CapsLock => 0x3A,
        Key::Cmd => 0x7D,
        Key::CmdL => 0x7D,
        Key::CmdR => 0x7E,
        Key::Ctrl => 0x1D,
        Key::CtrlL => 0x1D,
        Key::CtrlR => 0x61,
        Key::Delete => 0x6F,
        Key::Down => 0x6C,
        Key::End => 0x6B,
        Key::Enter => 0x1C,
        Key::Esc => 0x1,
        Key::F1 => 0x3B,
        Key::F2 => 0x3C,
        Key::F3 => 0x3D,
        Key::F4 => 0x3E,
        Key::F5 => 0x3F,
        Key::F6 => 0x40,
        Key::F7 => 0x41,
        Key::F8 => 0x42,
        Key::F9 => 0x43,
        Key::F10 => 0x44,
        Key::F11 => 0x57,
        Key::F12 => 0x58,
        Key::F13 => 0xB7,
        Key::F14 => 0xB8,
        Key::F15 => 0xB9,
        Key::F16 => 0xBA,
        Key::F17 => 0xBB,
        Key::F18 => 0xBC,
        Key::F19 => 0xBD,
        Key::F20 => 0xBE,
        Key::Home => 0x66,
        Key::Left => 0x69,
        Key::PageDown => 0x6D,
        Key::PageUp => 0x68,
        Key::Right => 0x6A,
        Key::Shift => 0x2A,
        Key::ShiftL => 0x2A,
        Key::ShiftR => 0x36,
        Key::Space => 0x39,
        Key::Tab => 0xF,
        Key::Up => 0x67,
        Key::MediaPlayPause => 0xA4,
        Key::MediaVolumeMute => 0x71,
        Key::MediaVolumeDown => 0x72,
        Key::MediaVolumeUp => 0x73,
        Key::MediaPrevious => 0xA5,
        Key::MediaNext => 0xA3,
        Key::Insert => 0x6E,
        Key::Menu => 0x8B,
        Key::NumLock => 0x45,
        Key::Pause => 0x77,
        Key::PrintScreen => 0x63,
        Key::ScrollLock => 0x46,
    }
}

/// Whether a key's code is `code`.
pub open spec fn evdev_is(code: u16) -> spec_fn(Key) -> bool {
    |k: Key| evdev_code(k) as u16 == code
}

/// The first well-known key with the input event code `code`.
pub fn special_from_code(code: u16) -> (key: Option<Key>)
    ensures
        key == first_key(evdev_is(code)),
{
    let keys = Key::all();
    let mut i: usize = 0;
    while i < keys.len()
        invariant
            keys@ == all_keys(),
            i <= keys.len(),
            first_key(evdev_is(code)) == first_key_from(i as int, evdev_is(code)),
        decreases keys.len() - i,
    {
        let k = keys[i];
        if evdev_key(k) as u16 == code {
            return Some(k);
        }
        i = i + 1;
    }
    None
}

/// Reverse maps an input event code to the listener value: the well-known key if there is one, otherwise the key code.
pub fn code_to_keyinput(code: u16) -> (input: Option<KeyInput>)
    ensures
        input == Some(
            match first_key(evdev_is(code)) {
                Some(k) => KeyInput::Key(k),
                None => KeyInput::Code(keycode_of_vk(code as u32)),
            },
        ),
{
    if let Some(key) = special_from_code(code) {
        return Some(KeyInput::Key(key));
    }
    Some(KeyInput::Code(KeyCode::from_vk(code as u32)))
}

/// The platform key code of a well-known key.
pub fn lookup(key: Key) -> (code: Option<KeyCode>)
    ensures
        code == Some(keycode_of_vk(evdev_code(key) as u32)),
{
    Some(KeyCode::from_vk(evdev_key(key) as u32))
}

/// The virtual key code used when canonicalising a non-modifier special key.
pub fn canonical_vk(key: Key) -> (vk: Option<u32>)
    ensures
        vk == Some(evdev_code(key) as u32),
{
    match lookup(key) {
        Some(c) => c.vk,
        None => None,
    }
}

/// A key's code identifies it up to keys that share the code: looking the
/// code up finds such a key, no later in declaration order.
pub proof fn lemma_code_roundtrip(k: Key)
    ensures
        first_key(evdev_is(evdev_code(k) as u16)) matches Some(k2) && evdev_code(k2) == evdev_code(k) && key_index(k2) <= key_index(k),
{
    lemma_first_key_found(k, evdev_is(evdev_code(k) as u16));
}


/// The input event code of the letter key at alphabetical position `off`
/// (`0` for *a*).
pub open spec fn letter_code(off: u8) -> u16 {
    match off {
        0 => 30,
        1 => 48,
        2 => 46,
        3 => 32,
        4 => 18,
        5 => 33,
        6 => 34,
        7 => 35,
        8 => 23,
        9 => 36,
        10 => 37,
        11 => 38,
        12 => 50,
        13 => 49,
        14 => 24,
        15 => 25,
        16 => 16,
        17 => 19,
        18 => 31,
        19 => 20,
        20 => 22,
        21 => 47,
        22 => 17,
        23 => 45,
        24 => 21,
        25 => 44,
        _ => 0,
    }
}

/// The US-layout key of a character and whether shift is required.
pub open spec fn char_evdev(c: char) -> Option<(u16, bool)> {
    if 'a' <= c <= 'z' {
        Some((letter_code((c as u32 - 97) as u8), false))
    } else if 'A' <= c <= 'Z' {
        Some((letter_code((c as u32 - 65) as u8), true))
    } else {
        match c {
            '1' => Some((2, false)),
            '2' => Some((3, false)),
            '3' => Some((4, false)),
            '4' => Some((5, false)),
            '5' => Some((6, false)),
            '6' => Some((7, false)),
            '7' => Some((8, false)),
            '8' => Some((9, false)),
            '9' => Some((10, false)),
            '0' => Some((11, false)),
            '!' => Some((2, true)),
            '@' => Some((3, true)),
            '#' => Some((4, true)),
            '$' => Some((5, true)),
            '%' => Some((6, true)),
            '^' => Some((7, true)),
            '&' => Some((8, true)),
            '*' => Some((9, true)),
            '(' => Some((10, true)),
            ')' => Some((11, true)),
            ' ' => Some((57, false)),
            '-' => Some((12, false)),
            '_' => Some((12, true)),
            '=' => Some((13, false)),
            '+' => Some((13, true)),
            '[' => Some((26, false)),
            '{' => Some((26, true)),
            ']' => Some((27, false)),
            '}' => Some((27, true)),
            '\\' => Some((43, false)),
            '|' => Some((43, true)),
            ';' => Some((39, false)),
            ':' => Some((39, true)),
            '\'' => Some((40, false)),
            '"' => Some((40, true)),
            '`' => Some((41, false)),
            '~' => Some((41, true)),
            ',' => Some((51, false)),
            '<' => Some((51, true)),
            '.' => Some((52, false)),
            '>' => Some((52, true)),
            '/' => Some((53, false)),
            '?' => Some((53, true)),
            '\t' => Some((15, false)),
            '\n' => Some((28, false)),
            '\r' => Some((28, false)),
            _ => None,
        }
    }
}

/// The code delta, from the code of *a*, of the letter key at alphabetical
/// position `off`; the letter codes are not alphabetical, so the delta wraps
/// around for letters whose code is below that of *a*.
pub fn letter_offset(off: u8) -> (delta: u16)
    requires
        off < 26,
    ensures
        delta == letter_code(off).wrapping_sub(30u16),
{
    let code: u16 = match off {
        0 => 30,
        1 => 48,
        2 => 46,
        3 => 32,
        4 => 18,
        5 => 33,
        6 => 34,
        7 => 35,
        8 => 23,
        9 => 36,
        10 => 37,
        11 => 38,
        12 => 50,
        13 => 49,
        14 => 24,
        15 => 25,
        16 => 16,
        17 => 19,
        18 => 31,
        19 => 20,
        20 => 22,
        21 => 47,
        22 => 17,
        23 => 45,
        24 => 21,
        25 => 44,
        _ => 30,
    };
    code.wrapping_sub(30)
}

/// Maps a character to a US-layout key code and whether shift is required.
pub fn char_to_evdev(c: char) -> (key: Option<(u16, bool)>)
    ensures
        key == char_evdev(c),
{
    if 'a' <= c && c <= 'z' {
        let off = (c as u32 - 97) as u8;
        let delta = letter_offset(off);
        assert(30u16.wrapping_add(delta) == letter_code(off));
        return Some((30u16.wrapping_add(delta), false));
    }
    if 'A' <= c && c <= 'Z' {
        let off = (c as u32 - 65) as u8;
        let delta = letter_offset(off);
        assert(30u16.wrapping_add(delta) == letter_code(off));
        return Some((30u16.wrapping_add(delta), true));
    }
    match c {
        '1' => Some((2, false)),
        '2' => Some((3, false)),
        '3' => Some((4, false)),
        '4' => Some((5, false)),
        '5' => Some((6, false)),
        '6' => Some((7, false)),
        '7' => Some((8, false)),
        '8' => Some((9, false)),
        '9' => Some((10, false)),
        '0' => Some((11, false)),
        '!' => Some((2, true)),
        '@' => Some((3, true)),
        '#' => Some((4, true)),
        '$' => Some((5, true)),
        '%' => Some((6, true)),
        '^' => Some((7, true)),
        '&' => Some((8, true)),
        '*' => Some((9, true)),
        '(' => Some((10, true)),
        ')' => Some((11, true)),
        ' ' => Some((57, false)),
        '-' => Some((12, false)),
        '_' => Some((12, true)),
        '=' => Some((13, false)),
        '+' => Some((13, true)),
        '[' => Some((26, false)),
        '{' => Some((26, true)),
        ']' => Some((27, false)),
        '}' => Some((27, true)),
        '\\' => Some((43, false)),
        '|' => Some((43, true)),
        ';' => Some((39, false)),
        ':' => Some((39, true)),
        '\'' => Some((40, false)),
        '"' => Some((40, true)),
        '`' => Some((41, false)),
        '~' => Some((41, true)),
        ',' => Some((51, false)),
        '<' => Some((51, true)),
        '.' => Some((52, false)),
        '>' => Some((52, true)),
        '/' => Some((53, false)),
        '?' => Some((53, true)),
        '\t' => Some((15, false)),
        '\n' => Some((28, false)),
        '\r' => Some((28, false)),
        _ => None,
    }
}

/// The input event code of the left shift key.
pub const LEFT_SHIFT: u16 = 42;

/// What a key event's value means: 1 presses, 0 releases, and anything
/// else (2 repeats a held key) is ignored.
pub open spec fn key_action_of(value: i32) -> Option<bool> {
    if value == 1 {
        Some(true)
    } else if value == 0 {
        Some(false)
    } else {
        None
    }
}

/// Whether a key event presses (`Some(true)`) or releases (`Some(false)`)
/// its key, or is to be ignored.
pub fn key_action(value: i32) -> (action: Option<bool>)
    ensures
        action == key_action_of(value),
{
    if value == 1 {
        Some(true)
    } else if value == 0 {
        Some(false)
    } else {
        None
    }
}

/// The input events that press or release a key code: a virtual key code
/// is sent as it is; a character is sent as the key that types it, with the
/// left shift key around it when it needs shift; anything else is invalid.
pub open spec fn key_events_of(key: KeyCode, is_press: bool) -> Option<Seq<(u16, i32)>> {
    let value: i32 = if is_press {
        1
    } else {
        0
    };
    match key.vk {
        Some(vk) => Some(seq![(vk as u16, value)]),
        None => match key.char {
            Some(c) => match char_evdev(c) {
                Some((code, needs_shift)) => Some(
                    if !needs_shift {
                        seq![(code, value)]
                    } else if is_press {
                        seq![(LEFT_SHIFT, 1i32), (code, 1i32)]
                    } else {
                        seq![(code, 0i32), (LEFT_SHIFT, 0i32)]
                    },
                ),
                None => None,
            },
            None => None,
        },
    }
}

/// The input events that press or release a key code, or the error that
/// names a key code without them: its character when it has one, its short
/// text otherwise.
pub fn key_events(key: &KeyCode, is_press: bool) -> (events: Result<Vec<(u16, i32)>, Error>)
    requires
        key.vk is None && key.char is None ==> !key.is_dead,
    ensures
        key_events_of(*key, is_press) matches Some(ev) ==> (events matches Ok(v) && v@ == ev),
        key_events_of(*key, is_press) is None ==> (events matches Err(Error::InvalidKey(m)) && m@
            == (if key.vk is None && key.char is Some {
            char_debug_text(key.char.unwrap())
        } else {
            keycode_repr(*key)
        })),
{
    let value: i32 = if is_press {
        1
    } else {
        0
    };
    if let Some(vk) = key.vk {
        let mut v: Vec<(u16, i32)> = Vec::new();
        v.push((vk as u16, value));
        assert(v@ =~= key_events_of(*key, is_press).unwrap());
        return Ok(v);
    }
    if let Some(c) = key.char {
        match char_to_evdev(c) {
            Some((code, needs_shift)) => {
                let mut v: Vec<(u16, i32)> = Vec::new();
                if !needs_shift {
                    v.push((code, value));
                } else if is_press {
                    v.push((LEFT_SHIFT, 1));
                    v.push((code, 1));
                } else {
                    v.push((code, 0));
                    v.push((LEFT_SHIFT, 0));
                }
                assert(v@ =~= key_events_of(*key, is_press).unwrap());
                return Ok(v);
            },
            None => {
                return Err(Error::InvalidKey(char_debug(c)));
            },
        }
    }
    Err(Error::InvalidKey(key.repr()))
}

/// A key event with value 1 presses its key and one with value 0 releases
/// it; a repeat (value 2) or any other value is ignored.
pub proof fn lemma_key_actions(value: i32)
    ensures
        key_action_of(1) == Some(true),
        key_action_of(0) == Some(false),
        value != 0 && value != 1 ==> key_action_of(value) is None,
{
}

/// Key events press with value 1 and release with value 0. A character that
/// needs shift is typed with the left shift key (`KEY_LEFTSHIFT`, 42) held
/// around it: shift goes down before the key is pressed, and comes up after
/// the key is released.
pub proof fn lemma_key_events_shift(key: KeyCode, is_press: bool)
    ensures
        key.vk matches Some(vk) ==> key_events_of(key, is_press) == Some(
            seq![(vk as u16, if is_press { 1i32 } else { 0i32 })],
        ),
        key.vk is None && key.char is Some && char_evdev(key.char.unwrap()) is Some ==> {
            let ev = key_events_of(key, is_press).unwrap();
            let (code, needs_shift) = char_evdev(key.char.unwrap()).unwrap();
            &&& key_events_of(key, is_press) is Some
            &&& !needs_shift ==> ev == seq![(code, if is_press { 1i32 } else { 0i32 })]
            &&& needs_shift && is_press ==> ev == seq![(42u16, 1i32), (code, 1i32)]
            &&& needs_shift && !is_press ==> ev == seq![(code, 0i32), (42u16, 0i32)]
        },
{
}

} // verus!
