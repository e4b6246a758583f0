//! The key tables of the *macOS* backend.

use vstd::prelude::*;

use crate::keyboard::input::KeyInput;
use crate::keyboard::key::{all_keys, first_key, first_key_from, key_index, lemma_first_key_found, Key};
use crate::keyboard::keycode::{keycode_of_vk, KeyCode};

verus! {

/// The *macOS* virtual key code of a well-known key.
pub open spec fn darwin_keycode(key: Key) -> u16 {
    match key {
        Key::Alt => 0x3A,
        Key::AltL => 0x3A,
        Key::AltR => 0x3D,
        Key::AltGr => 0x3D,
        Key::Backspace => 0x33,
        Key::CapsLock => 0x39,
        Key::Cmd => 0x37,
        Key::CmdL => 0x37,
        Key::CmdR => 0x36,
        Key::Ctrl => 0x3B,
        Key::CtrlL => 0x3B,
        Key::CtrlR => 0x3E,
        Key::Delete => 0x75,
        Key::Down => 0x7D,
        Key::End => 0x77,
        Key::Enter => 0x24,
        Key::Esc => 0x35,
        Key::F1 => 0x7A,
        Key::F2 => 0x78,
        Key::F3 => 0x63,
        Key::F4 => 0x76,
        Key::F5 => 0x60,
        Key::F6 => 0x61,
        Key::F7 => 0x62,
        Key::F8 => 0x64,
        Key::F9 => 0x65,
        Key::F10 => 0x6D,
        Key::F11 => 0x67,
        Key::F12 => 0x6F,
        Key::F13 => 0x69,
        Key::F14 => 0x6B,
        Key::F15 => 0x71,
        Key::F16 => 0x6A,
        Key::F17 => 0x40,
        Key::F18 => 0x4F,
        Key::F19 => 0x50,
        Key::F20 => 0x5A,
        Key::Home => 0x73,
        Key::Left => 0x7B,
        Key::PageDown => 0x79,
        Key::PageUp => 0x74,
        Key::Right => 0x7C,
        Key::Shift => 0x38,
        Key::ShiftL => 0x38,
        Key::ShiftR => 0x3C,
        Key::Space => 0x31,
        Key::Tab => 0x30,
        Key::Up => 0x7E,
        Key::MediaPlayPause => 0x0,
        Key::MediaVolumeMute => 0x4A,
        Key::MediaVolumeDown => 0x49,
        Key::MediaVolumeUp => 0x48,
        Key::MediaPrevious => 0x0,
        Key::MediaNext => 0x0,
        Key::Insert => 0x72,
        Key::Menu => 0x6E,
        Key::NumLock => 0x47,
        Key::Pause => 0x0,
        Key::PrintScreen => 0x0,
        Key::ScrollLock => 0x0,
    }
}

/// Maps a well-known [`Key`] to a *macOS* virtual key code.
pub fn keycode(key: Key) -> (code: u16)
    ensures
        code == darwin_keycode(key),
{
    match key {
        Key::Alt => 0x3A,
        Key::AltL => 0x3A,
        Key::AltR => 0x3D,
        Key::AltGr => 0x3D,
        Key::Backspace => 0x33,
        Key::CapsLock => 0x39,
        Key::Cmd => 0x37,
        Key::CmdL => 0x37,
        Key::CmdR => 0x36,
        Key::Ctrl => 0x3B,
        Key::CtrlL => 0x3B,
        Key::CtrlR => 0x3E,
        Key::Delete => 0x75,
        Key::Down => 0x7D,
        Key::End => 0x77,
        Key::Enter => 0x24,
        Key::Esc => 0x35,
        Key::F1 => 0x7A,
        Key::F2 => 0x78,
        Key::F3 => 0x63,
        Key::F4 => 0x76,
        Key::F5 => 0x60,
        Key::F6 => 0x61,
        Key::F7 => 0x62,
        Key::F8 => 0x64,
        Key::F9 => 0x65,
        Key::F10 => 0x6D,
        Key::F11 => 0x67,
        Key::F12 => 0x6F,
        Key::F13 => 0x69,
        Key::F14 => 0x6B,
        Key::F15 => 0x71,
        Key::F16 => 0x6A,
        Key::F17 => 0x40,
        Key::F18 => 0x4F,
        Key::F19 => 0x50,
        Key::F20 => 0x5A,
        Key::Home => 0x73,
        Key::Left => 0x7B,
        Key::PageDown => 0x79,
        Key::PageUp => 0x74,
        Key::Right => 0x7C,
        Key::Shift => 0x38,
        Key::ShiftL => 0x38,
        Key::ShiftR => 0x3C,
        Key::Space => 0x31,
        Key::Tab => 0x30,
        Key::Up => 0x7E,
        Key::MediaPlayPause => 0x0,
        Key::MediaVolumeMute => 0x4A,
        Key::MediaVolumeDown => 0x49,
        Key::MediaVolumeUp => 0x48,
        Key::MediaPrevious => 0x0,
        Key::MediaNext => 0x0,
        Key::Insert => 0x72,
        Key::Menu => 0x6E,
        Key::NumLock => 0x47,
        Key::Pause => 0x0,
        Key::PrintScreen => 0x0,
        Key::ScrollLock => 0x0,
    }
}

/// Whether a key's code is `code`.
pub open spec fn keycode_is(code: u16) -> spec_fn(Key) -> bool {
    |k: Key| darwin_keycode(k) as u16 == code
}

/// The first well-known key with the key code `code`.
pub fn special_from_keycode(code: u16) -> (key: Option<Key>)
    ensures
        key == first_key(keycode_is(code)),
{
    let keys = Key::all();
    let mut i: usize = 0;
    while i < keys.len()
        invariant
            keys@ == all_keys(),
            i <= keys.len(),
            first_key(keycode_is(code)) == first_key_from(i as int, keycode_is(code)),
        decreases keys.len() - i,
    {
        let k = keys[i];
        if keycode(k) as u16 == code {
            return Some(k);
        }
        i = i + 1;
    }
    None
}

/// The listener value for a key code: the well-known key if there is one, otherwise the key code.
pub fn keycode_to_keyinput(code: u16) -> (input: Option<KeyInput>)
    ensures
        input == Some(
            match first_key(keycode_is(code)) {
                Some(k) => KeyInput::Key(k),
                None => KeyInput::Code(keycode_of_vk(code as u32)),
            },
        ),
{
    if let Some(key) = special_from_keycode(code) {
        return Some(KeyInput::Key(key));
    }
    Some(KeyInput::Code(KeyCode::from_vk(code as u32)))
}

/// The platform key code of a well-known key.
pub fn lookup(key: Key) -> (code: Option<KeyCode>)
    ensures
        code == Some(keycode_of_vk(darwin_keycode(key) as u32)),
{
    Some(KeyCode::from_vk(keycode(key) as u32))
}

/// The virtual key code used when canonicalising a non-modifier special key.
pub fn canonical_vk(key: Key) -> (vk: Option<u32>)
    ensures
        vk == Some(darwin_keycode(key) as u32),
{
    match lookup(key) {
        Some(c) => c.vk,
        None => None,
    }
}

/// A key's code identifies it up to keys that share the code: looking the
/// code up finds such a key, no later in declaration order.
pub proof fn lemma_code_roundtrip(k: Key)
    ensures
        first_key(keycode_is(darwin_keycode(k) as u16)) matches Some(k2) && darwin_keycode(k2) == darwin_keycode(k) && key_index(k2) <= key_index(k),
{
    lemma_first_key_found(k, keycode_is(darwin_keycode(k) as u16));
}

} // verus!
