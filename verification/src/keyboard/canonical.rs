//! Normalisation of key inputs, and the choice of keyboard backend it
//! depends on.

use vstd::prelude::*;

use crate::keyboard::darwin::{self, darwin_keycode};
use crate::keyboard::input::KeyInput;
use crate::keyboard::key::{key_normal_modifier, Key};
use crate::keyboard::keycode::{keycode_of_char, keycode_of_vk, KeyCode};
use crate::keyboard::uinput::{self, evdev_code};
use crate::keyboard::win32::{self, win32_vk};
use crate::keyboard::xorg::{self, is_xorg_keycode, xorg_keysym};
use crate::util::text::{char_lowercase, lowercase_first};

verus! {

/// The keyboard backend in use, which decides the key codes of the
/// well-known keys.
#[derive(Clone, Copy, Debug, PartialEq, Eq, Structural)]
pub enum KeyboardBackend {
    /// *X11*.
    Xorg,
    /// *uinput*/*evdev* on Linux.
    Uinput,
    /// *Windows*.
    Win32,
    /// *macOS*.
    Darwin,
    /// A platform without a backend.
    Unsupported,
}

/// The virtual key code a backend gives a well-known key.
pub open spec fn backend_vk(backend: KeyboardBackend, key: Key) -> Option<u32> {
    match backend {
        KeyboardBackend::Xorg => Some(xorg_keysym(key)),
        KeyboardBackend::Uinput => Some(evdev_code(key) as u32),
        KeyboardBackend::Win32 => Some(win32_vk(key) as u32),
        KeyboardBackend::Darwin => Some(darwin_keycode(key) as u32),
        KeyboardBackend::Unsupported => None,
    }
}

/// Whether `code` is the key code the backend gives the well-known key
/// `key`; a platform without a backend gives every key the code `0`.
pub open spec fn backend_keycode(backend: KeyboardBackend, key: Key, code: KeyCode) -> bool {
    match backend {
        KeyboardBackend::Xorg => is_xorg_keycode(code, key),
        KeyboardBackend::Unsupported => code == keycode_of_vk(0),
        _ => code == keycode_of_vk(backend_vk(backend, key).unwrap()),
    }
}

impl KeyboardBackend {
    /// The key code this backend gives a well-known key.
    pub fn key_value(self, key: Key) -> (code: KeyCode)
        ensures
            backend_keycode(self, key, code),
    {
        match self {
            KeyboardBackend::Xorg => xorg::key_code_for(key),
            KeyboardBackend::Uinput => KeyCode::from_vk(uinput::evdev_key(key) as u32),
            KeyboardBackend::Win32 => KeyCode::from_vk(win32::vk(key) as u32),
            KeyboardBackend::Darwin => KeyCode::from_vk(darwin::keycode(key) as u32),
            KeyboardBackend::Unsupported => KeyCode::from_vk(0),
        }
    }

    /// The virtual key code used when canonicalising a non-modifier special
    /// key.
    pub fn canonical_vk(self, key: Key) -> (vk: Option<u32>)
        ensures
            vk == backend_vk(self, key),
    {
        match self {
            KeyboardBackend::Xorg => xorg::canonical_vk(key),
            KeyboardBackend::Uinput => uinput::canonical_vk(key),
            KeyboardBackend::Win32 => win32::canonical_vk(key),
            KeyboardBackend::Darwin => darwin::canonical_vk(key),
            KeyboardBackend::Unsupported => None,
        }
    }
}

/// The normal form of a key input: characters in lower case, modifiers in
/// their generic form, other special keys as their virtual key code.
pub open spec fn canonical_input(key: KeyInput, backend: KeyboardBackend) -> KeyInput {
    match key {
        KeyInput::Code(code) => match code.char {
            Some(c) => KeyInput::Code(keycode_of_char(lowercase_first(c))),
            None => key,
        },
        KeyInput::Key(k) => match key_normal_modifier(k) {
            Some(base) => KeyInput::Key(base),
            None => match backend_vk(backend, k) {
                Some(vk) => KeyInput::Code(keycode_of_vk(vk)),
                None => key,
            },
        },
    }
}

/// Performs normalisation of a key, so events compare equal regardless of
/// modifier state.
pub fn canonical(key: &KeyInput, backend: KeyboardBackend) -> (normal: KeyInput)
    ensures
        normal == canonical_input(*key, backend),
{
    match key {
        KeyInput::Code(code) => match code.char {
            Some(c) => KeyInput::Code(KeyCode::from_char(char_lowercase(c))),
            None => *key,
        },
        KeyInput::Key(k) => {
            if let Some(base) = k.normal_modifier() {
                KeyInput::Key(base)
            } else if let Some(vk) = backend.canonical_vk(*k) {
                KeyInput::Code(KeyCode::from_vk(vk))
            } else {
                *key
            }
        },
    }
}

/// Normalising twice is normalising once, for every input but a key of a
/// non-ASCII character (whose lower case Unicode gives).
pub proof fn lemma_canonical_idempotent(key: KeyInput, backend: KeyboardBackend)
    requires
        key matches KeyInput::Code(code) && code.char matches Some(c) ==> (c as u32) < 128,
    ensures
        canonical_input(canonical_input(key, backend), backend) == canonical_input(key, backend),
{
}

/// Every variant of a modifier normalises to the same value as its generic
/// form.
pub proof fn lemma_canonical_modifier(k: Key, backend: KeyboardBackend)
    requires
        key_normal_modifier(k) is Some,
    ensures
        canonical_input(KeyInput::Key(k), backend) == canonical_input(
            KeyInput::Key(key_normal_modifier(k).unwrap()),
            backend,
        ),
        canonical_input(KeyInput::Key(k), backend) == KeyInput::Key(key_normal_modifier(k).unwrap()),
{
}

/// An ASCII letter normalises to the same value in either case.
pub proof fn lemma_canonical_ascii_case(c: char, backend: KeyboardBackend)
    requires
        'A' <= c <= 'Z',
    ensures
        canonical_input(KeyInput::Code(keycode_of_char(c)), backend) == canonical_input(
            KeyInput::Code(keycode_of_char(((c as u32) + 32) as char)),
            backend,
        ),
{
}

} // verus!
