//! The key tables of the *Windows* backend.

use vstd::prelude::*;

use crate::keyboard::input::KeyInput;
use crate::keyboard::key::{all_keys, first_key, first_key_from, key_index, lemma_first_key_found, Key};
use crate::keyboard::keycode::{keycode_of_vk, keycode_repr, KeyCode};
use crate::util::Error;

verus! {

/// The *Windows* virtual key code of a well-known key.
pub open spec fn win32_vk(key: Key) -> u16 {
    match key {
        Key::Alt => 0xA4,
        Key::AltL => 0xA4,
        Key::AltR => 0xA5,
        Key::AltGr => 0xA5,
        Key::Backspace => 0x8,
        Key::CapsLock => 0x14,
        Key::Cmd => 0x5B,
        Key::CmdL => 0x5B,
        Key::CmdR => 0x5C,
        Key::Ctrl => 0xA2,
        Key::CtrlL => 0xA2,
        Key::CtrlR => 0xA3,
        Key::Delete => 0x2E,
        Key::Down => 0x28,
        Key::End => 0x23,
        Key::Enter => 0xD,
        Key::Esc => 0x1B,
        Key::F1 => 0x70,
        Key::F2 => 0x71,
        Key::F3 => 0x72,
        Key::F4 => 0x73,
        Key::F5 => 0x74,
        Key::F6 => 0x75,
        Key::F7 => 0x76,
        Key::F8 => 0x77,
        Key::F9 => 0x78,
        Key::F10 => 0x79,
        Key::F11 => 0x7A,
        Key::F12 => 0x7B,
        Key::F13 => 0x7C,
        Key::F14 => 0x7D,
        Key::F15 => 0x7E,
        Key::F16 => 0x7F,
        Key::F17 => 0x80,
        Key::F18 => 0x81,
        Key::F19 => 0x82,
        Key::F20 => 0x83,
        Key::Home => 0x24,
        Key::Left => 0x25,
        Key::PageDown => 0x22,
        Key::PageUp => 0x21,
        Key::Right => 0x27,
        Key::Shift => 0xA0,
        Key::ShiftL => 0xA0,
        Key::ShiftR => 0xA1,
        Key::Space => 0x20,
        Key::Tab => 0x9,
        Key::Up => 0x26,
        Key::MediaPlayPause => 0xB3,
        Key::MediaVolumeMute => 0xAD,
        Key::MediaVolumeDown => 0xAE,
        Key::MediaVolumeUp => 0xAF,
        Key::MediaPrevious => 0xB1,
        Key::MediaNext => 0xB0,
        Key::Insert => 0x2D,
        Key::Menu => 0x5D,
        Key::NumLock => 0x90,
        Key::Pause => 0x13,
        Key::PrintScreen => 0x2C,
        Key::ScrollLock => 0x91,
    }
}

/// Maps a well-known [`Key`] to a *Windows* virtual key code.
pub fn vk(key: Key) -> (code: u16)
    ensures
        code == win32_vk(key),
{
    match key {
        Key::Alt => 0xA4,
        Key::AltL => 0xA4,
        Key::AltR => 0xA5,
        Key::AltGr => 0xA5,
        Key::Backspace => 0x8,
        Key::CapsLock => 0x14,
        Key::Cmd => 0x5B,
        Key::CmdL => 0x5B,
        Key::CmdR => 0x5C,
        Key::Ctrl => 0xA2,
        Key::CtrlL => 0xA2,
        Key::CtrlR => 0xA3,
        Key::Delete => 0x2E,
        Key::Down => 0x28,
        Key::End => 0x23,
        Key::Enter => 0xD,
        Key::Esc => 0x1B,
        Key::F1 => 0x70,
        Key::F2 => 0x71,
        Key::F3 => 0x72,
        Key::F4 => 0x73,
        Key::F5 => 0x74,
        Key::F6 => 0x75,
        Key::F7 => 0x76,
        Key::F8 => 0x77,
        Key::F9 => 0x78,
        Key::F10 => 0x79,
        Key::F11 => 0x7A,
        Key::F12 => 0x7B,
        Key::F13 => 0x7C,
        Key::F14 => 0x7D,
        Key::F15 => 0x7E,
        Key::F16 => 0x7F,
        Key::F17 => 0x80,
        Key::F18 => 0x81,
        Key::F19 => 0x82,
        Key::F20 => 0x83,
        Key::Home => 0x24,
        Key::Left => 0x25,
        Key::PageDown => 0x22,
        Key::PageUp => 0x21,
        Key::Right => 0x27,
        Key::Shift => 0xA0,
        Key::ShiftL => 0xA0,
        Key::ShiftR => 0xA1,
        Key::Space => 0x20,
        Key::Tab => 0x9,
        Key::Up => 0x26,
        Key::MediaPlayPause => 0xB3,
        Key::MediaVolumeMute => 0xAD,
        Key::MediaVolumeDown => 0xAE,
        Key::MediaVolumeUp => 0xAF,
        Key::MediaPrevious => 0xB1,
        Key::MediaNext => 0xB0,
        Key::Insert => 0x2D,
        Key::Menu => 0x5D,
        Key::NumLock => 0x90,
        Key::Pause => 0x13,
        Key::PrintScreen => 0x2C,
        Key::ScrollLock => 0x91,
    }
}

/// Whether a key's code is `code`.
pub open spec fn vk_is(code: u32) -> spec_fn(Key) -> bool {
    |k: Key| win32_vk(k) as u32 == code
}

/// The first well-known key with the virtual key code `code`.
pub fn special_from_vk(code: u32) -> (key: Option<Key>)
    ensures
        key == first_key(vk_is(code)),
{
    let keys = Key::all();
    let mut i: usize = 0;
    while i < keys.len()
        invariant
            keys@ == all_keys(),
            i <= keys.len(),
            first_key(vk_is(code)) == first_key_from(i as int, vk_is(code)),
        decreases keys.len() - i,
    {
        let k = keys[i];
        if vk(k) as u32 == code {
            return Some(k);
        }
        i = i + 1;
    }
    None
}

/// The listener value for a virtual key code: the well-known key if there is one, otherwise the key code.
pub fn vk_to_keyinput(code: u32) -> (input: Option<KeyInput>)
    ensures
        input == Some(
            match first_key(vk_is(code)) {
                Some(k) => KeyInput::Key(k),
                None => KeyInput::Code(keycode_of_vk(code as u32)),
            },
        ),
{
    if let Some(key) = special_from_vk(code) {
        return Some(KeyInput::Key(key));
    }
    Some(KeyInput::Code(KeyCode::from_vk(code as u32)))
}

/// The platform key code of a well-known key.
pub fn lookup(key: Key) -> (code: Option<KeyCode>)
    ensures
        code == Some(keycode_of_vk(win32_vk(key) as u32)),
{
    Some(KeyCode::from_vk(vk(key) as u32))
}

/// The virtual key code used when canonicalising a non-modifier special key.
pub fn canonical_vk(key: Key) -> (vk: Option<u32>)
    ensures
        vk == Some(win32_vk(key) as u32),
{
    match lookup(key) {
        Some(c) => c.vk,
        None => None,
    }
}

/// A key's code identifies it up to keys that share the code: looking the
/// code up finds such a key, no later in declaration order.
pub proof fn lemma_code_roundtrip(k: Key)
    ensures
        first_key(vk_is(win32_vk(k) as u32)) matches Some(k2) && win32_vk(k2) == win32_vk(k) && key_index(k2) <= key_index(k),
{
    lemma_first_key_found(k, vk_is(win32_vk(k) as u32));
}

/// The message of a key press.
pub const WM_KEYDOWN: u32 = 0x0100;
/// The message of a key release.
pub const WM_KEYUP: u32 = 0x0101;
/// The message of a key press while *alt* is held.
pub const WM_SYSKEYDOWN: u32 = 0x0104;
/// The message of a key release while *alt* is held.
pub const WM_SYSKEYUP: u32 = 0x0105;

/// Whether a hooked keyboard message presses (`Some(true)`) or releases
/// (`Some(false)`) a key, if it is either.
pub open spec fn hook_action_of(message: u32) -> Option<bool> {
    if message == WM_KEYDOWN || message == WM_SYSKEYDOWN {
        Some(true)
    } else if message == WM_KEYUP || message == WM_SYSKEYUP {
        Some(false)
    } else {
        None
    }
}

/// Whether a hooked keyboard message presses or releases a key.
pub fn hook_action(message: u32) -> (action: Option<bool>)
    ensures
        action == hook_action_of(message),
{
    if message == WM_KEYDOWN || message == WM_SYSKEYDOWN {
        Some(true)
    } else if message == WM_KEYUP || message == WM_SYSKEYUP {
        Some(false)
    } else {
        None
    }
}

/// Whether the flags of a hooked keyboard message mark it as injected.
pub fn is_injected(flags: u32) -> (injected: bool)
    ensures
        injected == (flags & 0x10 != 0),
{
    flags & 0x10 != 0
}

/// The UTF-16 code units of a character: one below `0x10000`, a surrogate
/// pair above.
pub open spec fn utf16_units(c: char) -> Seq<u16> {
    let v = c as u32;
    if v < 0x10000 {
        seq![v as u16]
    } else {
        seq![
            (0xD800 + (v - 0x10000) / 0x400) as u16,
            (0xDC00 + (v - 0x10000) % 0x400) as u16,
        ]
    }
}

/// The inputs that press or release a key code: a virtual key code on its
/// own, or each UTF-16 unit of a character as a unicode input; `None` for a
/// key code with neither.
pub open spec fn key_inputs_of(key: KeyCode) -> Option<Seq<(u16, u16, bool)>> {
    match key.vk {
        Some(vk) => Some(seq![(vk as u16, 0u16, false)]),
        None => match key.char {
            Some(c) => Some(utf16_units(c).map_values(|u: u16| (0u16, u, true))),
            None => None,
        },
    }
}

/// The inputs that press or release a key code: triples of the virtual key
/// code, the unicode unit and whether the input is a unicode one.
pub fn key_inputs(key: &KeyCode) -> (inputs: Result<Vec<(u16, u16, bool)>, Error>)
    requires
        key.vk is None && key.char is None ==> !key.is_dead,
    ensures
        key_inputs_of(*key) matches Some(v) ==> (inputs matches Ok(w) && w@ == v),
        key_inputs_of(*key) is None ==> (inputs matches Err(Error::InvalidKey(m)) && m@
            == keycode_repr(*key)),
{
    let mut inputs: Vec<(u16, u16, bool)> = Vec::new();
    if let Some(vk) = key.vk {
        inputs.push((vk as u16, 0, false));
        assert(inputs@ =~= key_inputs_of(*key).unwrap());
        return Ok(inputs);
    }
    if let Some(c) = key.char {
        let v = c as u32;
        if v < 0x10000 {
            inputs.push((0, v as u16, true));
        } else {
            let w = v - 0x10000;
            inputs.push((0, (0xD800 + w / 0x400) as u16, true));
            inputs.push((0, (0xDC00 + w % 0x400) as u16, true));
        }
        assert(inputs@ =~= key_inputs_of(*key).unwrap());
        return Ok(inputs);
    }
    Err(Error::InvalidKey(key.repr()))
}

/// The input flag of a key release.
pub const KEYEVENTF_KEYUP: u32 = 0x0002;
/// The input flag of a unicode input.
pub const KEYEVENTF_UNICODE: u32 = 0x0004;

/// The flags of a keyboard input: unicode for a unicode unit, key up for a
/// release.
pub fn key_flags(unicode: bool, is_press: bool) -> (flags: u32)
    ensures
        flags == (if unicode {
            KEYEVENTF_UNICODE
        } else {
            0u32
        }) | (if is_press {
            0u32
        } else {
            KEYEVENTF_KEYUP
        }),
{
    let u: u32 = if unicode {
        KEYEVENTF_UNICODE
    } else {
        0
    };
    let k: u32 = if is_press {
        0
    } else {
        KEYEVENTF_KEYUP
    };
    u | k
}

/// The keyboard messages of a hook: `WM_KEYDOWN` (0x0100) and
/// `WM_SYSKEYDOWN` (0x0104) press a key, `WM_KEYUP` (0x0101) and
/// `WM_SYSKEYUP` (0x0105) release it, and other messages do neither.
pub proof fn lemma_hook_actions(message: u32)
    ensures
        hook_action_of(0x0100) == Some(true),
        hook_action_of(0x0104) == Some(true),
        hook_action_of(0x0101) == Some(false),
        hook_action_of(0x0105) == Some(false),
        !(message == 0x0100 || message == 0x0101 || message == 0x0104 || message == 0x0105)
            ==> hook_action_of(message) is None,
{
}

/// The UTF-16 units of a character encode it: a character below `0x10000`
/// is its own unit; any other is a high surrogate and a low surrogate from
/// which its value is recovered.
pub proof fn lemma_utf16_units(c: char)
    ensures
        (c as u32) < 0x10000 ==> utf16_units(c) == seq![(c as u32) as u16],
        (c as u32) >= 0x10000 ==> {
            let u = utf16_units(c);
            &&& u.len() == 2
            &&& 0xD800 <= u[0] < 0xDC00
            &&& 0xDC00 <= u[1] < 0xE000
            &&& 0x10000 + (u[0] - 0xD800) * 0x400 + (u[1] - 0xDC00) == c as u32
        },
{
    let v = c as u32;
    if v >= 0x10000 {
        assert(v <= 0x10FFFF);
        let w = (v - 0x10000) as int;
        assert(w / 0x400 < 0x400) by (nonlinear_arith)
            requires
                0 <= w <= 0xFFFFF,
        ;
        assert(w == (w / 0x400) * 0x400 + w % 0x400) by (nonlinear_arith)
            requires
                0 <= w,
        ;
    }
}

/// A key code with a virtual key code is sent as that key alone; one with
/// only a character is sent as its UTF-16 units, each as a unicode input.
pub proof fn lemma_key_inputs(key: KeyCode)
    ensures
        key.vk matches Some(vk) ==> key_inputs_of(key) == Some(seq![(vk as u16, 0u16, false)]),
        key.vk is None && key.char is Some ==> {
            let v = key_inputs_of(key).unwrap();
            &&& key_inputs_of(key) is Some
            &&& v.len() == utf16_units(key.char.unwrap()).len()
            &&& forall|i: int|
                0 <= i < v.len() ==> #[trigger] v[i] == (0u16, utf16_units(key.char.unwrap())[i], true)
        },
        key.vk is None && key.char is None ==> key_inputs_of(key) is None,
{
}

} // verus!
