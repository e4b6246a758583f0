//! The key tables and the reading of key events of the *Xorg* backend.

use vstd::prelude::*;

use crate::keyboard::input::KeyInput;
use crate::keyboard::key::{all_keys, first_key, first_key_from, key_index, lemma_first_key_found, Key};
use crate::keyboard::keycode::{keycode_of_char, keycode_of_vk, keycode_repr, keycode_wf, symbol_view, KeyCode};
use crate::util::Error;
use crate::keyboard::keysyms::{
    combining_dead_keysym, combining_standalone, dead_combining, dead_keysym_combining,
    dead_keysym_for, dead_standalone, keysym_combining,
};
use crate::util::text::{char_from_u32, char_uppercase, digit_char, uppercase_first};
use crate::util::xorg::{
    char_to_keysym, keyboard_mapping, keycode_of_keysym, keysym_of_char, keysym_to_keycode,
    mapping_of_rows,
};

verus! {

broadcast use vstd::std_specs::hash::group_hash_axioms;

/// The *X* keysym of a well-known key.
pub open spec fn xorg_keysym(key: Key) -> u32 {
    match key {
        Key::Alt => 0xFFE9,
        Key::AltL => 0xFFE9,
        Key::AltR => 0xFFEA,
        Key::AltGr => 0xFF7E,
        Key::Backspace => 0xFF08,
        Key::CapsLock => 0xFFE5,
        Key::Cmd => 0xFFEB,
        Key::CmdL => 0xFFEB,
        Key::CmdR => 0xFFEC,
        Key::Ctrl => 0xFFE3,
        Key::CtrlL => 0xFFE3,
        Key::CtrlR => 0xFFE4,
        Key::Delete => 0xFFFF,
        Key::Down => 0xFF54,
        Key::End => 0xFF57,
        Key::Enter => 0xFF0D,
        Key::Esc => 0xFF1B,
        Key::F1 => 0xFFBE,
        Key::F2 => 0xFFBF,
        Key::F3 => 0xFFC0,
        Key::F4 => 0xFFC1,
        Key::F5 => 0xFFC2,
        Key::F6 => 0xFFC3,
        Key::F7 => 0xFFC4,
        Key::F8 => 0xFFC5,
        Key::F9 => 0xFFC6,
        Key::F10 => 0xFFC7,
        Key::F11 => 0xFFC8,
        Key::F12 => 0xFFC9,
        Key::F13 => 0xFFCA,
        Key::F14 => 0xFFCB,
        Key::F15 => 0xFFCC,
        Key::F16 => 0xFFCD,
        Key::F17 => 0xFFCE,
        Key::F18 => 0xFFCF,
        Key::F19 => 0xFFD0,
        Key::F20 => 0xFFD1,
        Key::Home => 0xFF50,
        Key::Left => 0xFF51,
        Key::PageDown => 0xFF56,
        Key::PageUp => 0xFF55,
        Key::Right => 0xFF53,
        Key::Shift => 0xFFE1,
        Key::ShiftL => 0xFFE1,
        Key::ShiftR => 0xFFE2,
        Key::Space => 0x20,
        Key::Tab => 0xFF09,
        Key::Up => 0xFF52,
        Key::MediaPlayPause => 0x1008FF14,
        Key::MediaVolumeMute => 0x1008FF12,
        Key::MediaVolumeDown => 0x1008FF11,
        Key::MediaVolumeUp => 0x1008FF13,
        Key::MediaPrevious => 0x1008FF16,
        Key::MediaNext => 0x1008FF17,
        Key::Insert => 0xFF63,
        Key::Menu => 0xFF67,
        Key::NumLock => 0xFF7F,
        Key::Pause => 0xFF13,
        Key::PrintScreen => 0xFF61,
        Key::ScrollLock => 0xFF14,
    }
}

/// The *X* symbol name of a well-known key.
pub open spec fn xorg_symbol(key: Key) -> Seq<char> {
    match key {
        Key::Alt => "Alt_L"@,
        Key::AltL => "Alt_L"@,
        Key::AltR => "Alt_R"@,
        Key::AltGr => "Mode_switch"@,
        Key::Backspace => "BackSpace"@,
        Key::CapsLock => "Caps_Lock"@,
        Key::Cmd => "Super_L"@,
        Key::CmdL => "Super_L"@,
        Key::CmdR => "Super_R"@,
        Key::Ctrl => "Control_L"@,
        Key::CtrlL => "Control_L"@,
        Key::CtrlR => "Control_R"@,
        Key::Delete => "Delete"@,
        Key::Down => "Down"@,
        Key::End => "End"@,
        Key::Enter => "Return"@,
        Key::Esc => "Escape"@,
        Key::F1 => "F1"@,
        Key::F2 => "F2"@,
        Key::F3 => "F3"@,
        Key::F4 => "F4"@,
        Key::F5 => "F5"@,
        Key::F6 => "F6"@,
        Key::F7 => "F7"@,
        Key::F8 => "F8"@,
        Key::F9 => "F9"@,
        Key::F10 => "F10"@,
        Key::F11 => "F11"@,
        Key::F12 => "F12"@,
        Key::F13 => "F13"@,
        Key::F14 => "F14"@,
        Key::F15 => "F15"@,
        Key::F16 => "F16"@,
        Key::F17 => "F17"@,
        Key::F18 => "F18"@,
        Key::F19 => "F19"@,
        Key::F20 => "F20"@,
        Key::Home => "Home"@,
        Key::Left => "Left"@,
        Key::PageDown => "Page_Down"@,
        Key::PageUp => "Page_Up"@,
        Key::Right => "Right"@,
        Key::Shift => "Shift_L"@,
        Key::ShiftL => "Shift_L"@,
        Key::ShiftR => "Shift_R"@,
        Key::Space => "space"@,
        Key::Tab => "Tab"@,
        Key::Up => "Up"@,
        Key::MediaPlayPause => "XF86AudioPlay"@,
        Key::MediaVolumeMute => "XF86AudioMute"@,
        Key::MediaVolumeDown => "XF86AudioLowerVolume"@,
        Key::MediaVolumeUp => "XF86AudioRaiseVolume"@,
        Key::MediaPrevious => "XF86AudioPrev"@,
        Key::MediaNext => "XF86AudioNext"@,
        Key::Insert => "Insert"@,
        Key::Menu => "Menu"@,
        Key::NumLock => "Num_Lock"@,
        Key::Pause => "Pause"@,
        Key::PrintScreen => "Print"@,
        Key::ScrollLock => "Scroll_Lock"@,
    }
}

/// The character a well-known key types, if any.
pub open spec fn xorg_char(key: Key) -> Option<char> {
    match key {
        Key::Space => Some(' '),
        _ => None,
    }
}

/// Whether `k` is the key code of the well-known key `key` in the *X* table.
pub open spec fn is_xorg_keycode(k: KeyCode, key: Key) -> bool {
    &&& k.vk == Some(xorg_keysym(key))
    &&& k.char == xorg_char(key)
    &&& !k.is_dead
    &&& k.combining is None
    &&& symbol_view(k.symbol) == Some(xorg_symbol(key))
}

/// The key code of a well-known key: its keysym, symbol name and character.
pub fn key_code_for(key: Key) -> (k: KeyCode)
    ensures
        is_xorg_keycode(k, key),
{
    match key {
        Key::Alt => {
            proof { reveal_strlit("Alt_L"); }
            KeyCode { vk: Some(0xFFE9), char: None, is_dead: false, combining: None, symbol: Some("Alt_L") }
        },
        Key::AltL => {
            proof { reveal_strlit("Alt_L"); }
            KeyCode { vk: Some(0xFFE9), char: None, is_dead: false, combining: None, symbol: Some("Alt_L") }
        },
        Key::AltR => {
            proof { reveal_strlit("Alt_R"); }
            KeyCode { vk: Some(0xFFEA), char: None, is_dead: false, combining: None, symbol: Some("Alt_R") }
        },
        Key::AltGr => {
            proof { reveal_strlit("Mode_switch"); }
            KeyCode { vk: Some(0xFF7E), char: None, is_dead: false, combining: None, symbol: Some("Mode_switch") }
        },
        Key::Backspace => {
            proof { reveal_strlit("BackSpace"); }
            KeyCode { vk: Some(0xFF08), char: None, is_dead: false, combining: None, symbol: Some("BackSpace") }
        },
        Key::CapsLock => {
            proof { reveal_strlit("Caps_Lock"); }
            KeyCode { vk: Some(0xFFE5), char: None, is_dead: false, combining: None, symbol: Some("Caps_Lock") }
        },
        Key::Cmd => {
            proof { reveal_strlit("Super_L"); }
            KeyCode { vk: Some(0xFFEB), char: None, is_dead: false, combining: None, symbol: Some("Super_L") }
        },
        Key::CmdL => {
            proof { reveal_strlit("Super_L"); }
            KeyCode { vk: Some(0xFFEB), char: None, is_dead: false, combining: None, symbol: Some("Super_L") }
        },
        Key::CmdR => {
            proof { reveal_strlit("Super_R"); }
            KeyCode { vk: Some(0xFFEC), char: None, is_dead: false, combining: None, symbol: Some("Super_R") }
        },
        Key::Ctrl => {
            proof { reveal_strlit("Control_L"); }
            KeyCode { vk: Some(0xFFE3), char: None, is_dead: false, combining: None, symbol: Some("Control_L") }
        },
        Key::CtrlL => {
            proof { reveal_strlit("Control_L"); }
            KeyCode { vk: Some(0xFFE3), char: None, is_dead: false, combining: None, symbol: Some("Control_L") }
        },
        Key::CtrlR => {
            proof { reveal_strlit("Control_R"); }
            KeyCode { vk: Some(0xFFE4), char: None, is_dead: false, combining: None, symbol: Some("Control_R") }
        },
        Key::Delete => {
            proof { reveal_strlit("Delete"); }
            KeyCode { vk: Some(0xFFFF), char: None, is_dead: false, combining: None, symbol: Some("Delete") }
        },
        Key::Down => {
            proof { reveal_strlit("Down"); }
            KeyCode { vk: Some(0xFF54), char: None, is_dead: false, combining: None, symbol: Some("Down") }
        },
        Key::End => {
            proof { reveal_strlit("End"); }
            KeyCode { vk: Some(0xFF57), char: None, is_dead: false, combining: None, symbol: Some("End") }
        },
        Key::Enter => {
            proof { reveal_strlit("Return"); }
            KeyCode { vk: Some(0xFF0D), char: None, is_dead: false, combining: None, symbol: Some("Return") }
        },
        Key::Esc => {
            proof { reveal_strlit("Escape"); }
            KeyCode { vk: Some(0xFF1B), char: None, is_dead: false, combining: None, symbol: Some("Escape") }
        },
        Key::F1 => {
            proof { reveal_strlit("F1"); }
            KeyCode { vk: Some(0xFFBE), char: None, is_dead: false, combining: None, symbol: Some("F1") }
        },
        Key::F2 => {
            proof { reveal_strlit("F2"); }
            KeyCode { vk: Some(0xFFBF), char: None, is_dead: false, combining: None, symbol: Some("F2") }
        },
        Key::F3 => {
            proof { reveal_strlit("F3"); }
            KeyCode { vk: Some(0xFFC0), char: None, is_dead: false, combining: None, symbol: Some("F3") }
        },
        Key::F4 => {
            proof { reveal_strlit("F4"); }
            KeyCode { vk: Some(0xFFC1), char: None, is_dead: false, combining: None, symbol: Some("F4") }
        },
        Key::F5 => {
            proof { reveal_strlit("F5"); }
            KeyCode { vk: Some(0xFFC2), char: None, is_dead: false, combining: None, symbol: Some("F5") }
        },
        Key::F6 => {
            proof { reveal_strlit("F6"); }
            KeyCode { vk: Some(0xFFC3), char: None, is_dead: false, combining: None, symbol: Some("F6") }
        },
        Key::F7 => {
            proof { reveal_strlit("F7"); }
            KeyCode { vk: Some(0xFFC4), char: None, is_dead: false, combining: None, symbol: Some("F7") }
        },
        Key::F8 => {
            proof { reveal_strlit("F8"); }
            KeyCode { vk: Some(0xFFC5), char: None, is_dead: false, combining: None, symbol: Some("F8") }
        },
        Key::F9 => {
            proof { reveal_strlit("F9"); }
            KeyCode { vk: Some(0xFFC6), char: None, is_dead: false, combining: None, symbol: Some("F9") }
        },
        Key::F10 => {
            proof { reveal_strlit("F10"); }
            KeyCode { vk: Some(0xFFC7), char: None, is_dead: false, combining: None, symbol: Some("F10") }
        },
        Key::F11 => {
            proof { reveal_strlit("F11"); }
            KeyCode { vk: Some(0xFFC8), char: None, is_dead: false, combining: None, symbol: Some("F11") }
        },
        Key::F12 => {
            proof { reveal_strlit("F12"); }
            KeyCode { vk: Some(0xFFC9), char: None, is_dead: false, combining: None, symbol: Some("F12") }
        },
        Key::F13 => {
            proof { reveal_strlit("F13"); }
            KeyCode { vk: Some(0xFFCA), char: None, is_dead: false, combining: None, symbol: Some("F13") }
        },
        Key::F14 => {
            proof { reveal_strlit("F14"); }
            KeyCode { vk: Some(0xFFCB), char: None, is_dead: false, combining: None, symbol: Some("F14") }
        },
        Key::F15 => {
            proof { reveal_strlit("F15"); }
            KeyCode { vk: Some(0xFFCC), char: None, is_dead: false, combining: None, symbol: Some("F15") }
        },
        Key::F16 => {
            proof { reveal_strlit("F16"); }
            KeyCode { vk: Some(0xFFCD), char: None, is_dead: false, combining: None, symbol: Some("F16") }
        },
        Key::F17 => {
            proof { reveal_strlit("F17"); }
            KeyCode { vk: Some(0xFFCE), char: None, is_dead: false, combining: None, symbol: Some("F17") }
        },
        Key::F18 => {
            proof { reveal_strlit("F18"); }
            KeyCode { vk: Some(0xFFCF), char: None, is_dead: false, combining: None, symbol: Some("F18") }
        },
        Key::F19 => {
            proof { reveal_strlit("F19"); }
            KeyCode { vk: Some(0xFFD0), char: None, is_dead: false, combining: None, symbol: Some("F19") }
        },
        Key::F20 => {
            proof { reveal_strlit("F20"); }
            KeyCode { vk: Some(0xFFD1), char: None, is_dead: false, combining: None, symbol: Some("F20") }
        },
        Key::Home => {
            proof { reveal_strlit("Home"); }
            KeyCode { vk: Some(0xFF50), char: None, is_dead: false, combining: None, symbol: Some("Home") }
        },
        Key::Left => {
            proof { reveal_strlit("Left"); }
            KeyCode { vk: Some(0xFF51), char: None, is_dead: false, combining: None, symbol: Some("Left") }
        },
        Key::PageDown => {
            proof { reveal_strlit("Page_Down"); }
            KeyCode { vk: Some(0xFF56), char: None, is_dead: false, combining: None, symbol: Some("Page_Down") }
        },
        Key::PageUp => {
            proof { reveal_strlit("Page_Up"); }
            KeyCode { vk: Some(0xFF55), char: None, is_dead: false, combining: None, symbol: Some("Page_Up") }
        },
        Key::Right => {
            proof { reveal_strlit("Right"); }
            KeyCode { vk: Some(0xFF53), char: None, is_dead: false, combining: None, symbol: Some("Right") }
        },
        Key::Shift => {
            proof { reveal_strlit("Shift_L"); }
            KeyCode { vk: Some(0xFFE1), char: None, is_dead: false, combining: None, symbol: Some("Shift_L") }
        },
        Key::ShiftL => {
            proof { reveal_strlit("Shift_L"); }
            KeyCode { vk: Some(0xFFE1), char: None, is_dead: false, combining: None, symbol: Some("Shift_L") }
        },
        Key::ShiftR => {
            proof { reveal_strlit("Shift_R"); }
            KeyCode { vk: Some(0xFFE2), char: None, is_dead: false, combining: None, symbol: Some("Shift_R") }
        },
        Key::Space => {
            proof { reveal_strlit("space"); }
            KeyCode { vk: Some(0x20), char: Some(' '), is_dead: false, combining: None, symbol: Some("space") }
        },
        Key::Tab => {
            proof { reveal_strlit("Tab"); }
            KeyCode { vk: Some(0xFF09), char: None, is_dead: false, combining: None, symbol: Some("Tab") }
        },
        Key::Up => {
            proof { reveal_strlit("Up"); }
            KeyCode { vk: Some(0xFF52), char: None, is_dead: false, combining: None, symbol: Some("Up") }
        },
        Key::MediaPlayPause => {
            proof { reveal_strlit("XF86AudioPlay"); }
            KeyCode { vk: Some(0x1008FF14), char: None, is_dead: false, combining: None, symbol: Some("XF86AudioPlay") }
        },
        Key::MediaVolumeMute => {
            proof { reveal_strlit("XF86AudioMute"); }
            KeyCode { vk: Some(0x1008FF12), char: None, is_dead: false, combining: None, symbol: Some("XF86AudioMute") }
        },
        Key::MediaVolumeDown => {
            proof { reveal_strlit("XF86AudioLowerVolume"); }
            KeyCode { vk: Some(0x1008FF11), char: None, is_dead: false, combining: None, symbol: Some("XF86AudioLowerVolume") }
        },
        Key::MediaVolumeUp => {
            proof { reveal_strlit("XF86AudioRaiseVolume"); }
            KeyCode { vk: Some(0x1008FF13), char: None, is_dead: false, combining: None, symbol: Some("XF86AudioRaiseVolume") }
        },
        Key::MediaPrevious => {
            proof { reveal_strlit("XF86AudioPrev"); }
            KeyCode { vk: Some(0x1008FF16), char: None, is_dead: false, combining: None, symbol: Some("XF86AudioPrev") }
        },
        Key::MediaNext => {
            proof { reveal_strlit("XF86AudioNext"); }
            KeyCode { vk: Some(0x1008FF17), char: None, is_dead: false, combining: None, symbol: Some("XF86AudioNext") }
        },
        Key::Insert => {
            proof { reveal_strlit("Insert"); }
            KeyCode { vk: Some(0xFF63), char: None, is_dead: false, combining: None, symbol: Some("Insert") }
        },
        Key::Menu => {
            proof { reveal_strlit("Menu"); }
            KeyCode { vk: Some(0xFF67), char: None, is_dead: false, combining: None, symbol: Some("Menu") }
        },
        Key::NumLock => {
            proof { reveal_strlit("Num_Lock"); }
            KeyCode { vk: Some(0xFF7F), char: None, is_dead: false, combining: None, symbol: Some("Num_Lock") }
        },
        Key::Pause => {
            proof { reveal_strlit("Pause"); }
            KeyCode { vk: Some(0xFF13), char: None, is_dead: false, combining: None, symbol: Some("Pause") }
        },
        Key::PrintScreen => {
            proof { reveal_strlit("Print"); }
            KeyCode { vk: Some(0xFF61), char: None, is_dead: false, combining: None, symbol: Some("Print") }
        },
        Key::ScrollLock => {
            proof { reveal_strlit("Scroll_Lock"); }
            KeyCode { vk: Some(0xFF14), char: None, is_dead: false, combining: None, symbol: Some("Scroll_Lock") }
        },
    }
}

/// Looks up the platform key code for a [`Key`] without a live connection.
pub fn lookup(key: Key) -> (code: Option<KeyCode>)
    ensures
        code matches Some(k) && is_xorg_keycode(k, key),
{
    Some(key_code_for(key))
}

/// The virtual key code used when canonicalising a non-modifier special key.
pub fn canonical_vk(key: Key) -> (vk: Option<u32>)
    ensures
        vk == Some(xorg_keysym(key)),
{
    match lookup(key) {
        Some(c) => c.vk,
        None => None,
    }
}

/// Whether a key's keysym is `keysym`.
pub open spec fn keysym_is(keysym: u32) -> spec_fn(Key) -> bool {
    |k: Key| xorg_keysym(k) == keysym
}

/// The first well-known key with the keysym `keysym`.
pub fn keysym_to_special(keysym: u32) -> (key: Option<Key>)
    ensures
        key == first_key(keysym_is(keysym)),
{
    let keys = Key::all();
    let mut i: usize = 0;
    while i < keys.len()
        invariant
            keys@ == all_keys(),
            i <= keys.len(),
            first_key(keysym_is(keysym)) == first_key_from(i as int, keysym_is(keysym)),
        decreases keys.len() - i,
    {
        let k = keys[i];
        if canonical_vk(k) == Some(keysym) {
            return Some(k);
        }
        i = i + 1;
    }
    None
}

/// A key's keysym identifies it up to keys that share the keysym.
pub proof fn lemma_keysym_roundtrip(k: Key)
    ensures
        first_key(keysym_is(xorg_keysym(k))) matches Some(k2) && xorg_keysym(k2) == xorg_keysym(k)
            && key_index(k2) <= key_index(k),
{
    lemma_first_key_found(k, keysym_is(xorg_keysym(k)));
}

/// The listener value of a keypad keysym.
pub open spec fn keypad_input(keysym: u32) -> Option<KeyInput> {
    match keysym {
        0xFFB0 => Some(KeyInput::Code(keycode_of_char('0'))),
        0xFFB1 => Some(KeyInput::Code(keycode_of_char('1'))),
        0xFFB2 => Some(KeyInput::Code(keycode_of_char('2'))),
        0xFFB3 => Some(KeyInput::Code(keycode_of_char('3'))),
        0xFFB4 => Some(KeyInput::Code(keycode_of_char('4'))),
        0xFFB5 => Some(KeyInput::Code(keycode_of_char('5'))),
        0xFFB6 => Some(KeyInput::Code(keycode_of_char('6'))),
        0xFFB7 => Some(KeyInput::Code(keycode_of_char('7'))),
        0xFFB8 => Some(KeyInput::Code(keycode_of_char('8'))),
        0xFFB9 => Some(KeyInput::Code(keycode_of_char('9'))),
        0xFFAB => Some(KeyInput::Code(keycode_of_char('+'))),
        0xFFAE => Some(KeyInput::Code(keycode_of_char(','))),
        0xFF9F => Some(KeyInput::Key(Key::Delete)),
        0xFFAF => Some(KeyInput::Code(keycode_of_char('/'))),
        0xFF99 => Some(KeyInput::Key(Key::Down)),
        0xFF9C => Some(KeyInput::Key(Key::End)),
        0xFF8D => Some(KeyInput::Key(Key::Enter)),
        0xFFBD => Some(KeyInput::Code(keycode_of_char('='))),
        0xFF91 => Some(KeyInput::Key(Key::F1)),
        0xFF92 => Some(KeyInput::Key(Key::F2)),
        0xFF93 => Some(KeyInput::Key(Key::F3)),
        0xFF94 => Some(KeyInput::Key(Key::F4)),
        0xFF95 => Some(KeyInput::Key(Key::Home)),
        0xFF9E => Some(KeyInput::Key(Key::Insert)),
        0xFF96 => Some(KeyInput::Key(Key::Left)),
        0xFFAA => Some(KeyInput::Code(keycode_of_char('*'))),
        0xFF9B => Some(KeyInput::Key(Key::PageDown)),
        0xFF9A => Some(KeyInput::Key(Key::PageUp)),
        0xFF98 => Some(KeyInput::Key(Key::Right)),
        0xFF80 => Some(KeyInput::Key(Key::Space)),
        0xFFAD => Some(KeyInput::Code(keycode_of_char('-'))),
        0xFF89 => Some(KeyInput::Key(Key::Tab)),
        0xFF97 => Some(KeyInput::Key(Key::Up)),
        _ => None,
    }
}

/// Maps a keypad keysym to the listener value it stands for.
pub fn keypad_keyinput(keysym: u32) -> (input: Option<KeyInput>)
    ensures
        input == keypad_input(keysym),
{
    match keysym {
        0xFFB0 => Some(KeyInput::Code(KeyCode::from_char('0'))),
        0xFFB1 => Some(KeyInput::Code(KeyCode::from_char('1'))),
        0xFFB2 => Some(KeyInput::Code(KeyCode::from_char('2'))),
        0xFFB3 => Some(KeyInput::Code(KeyCode::from_char('3'))),
        0xFFB4 => Some(KeyInput::Code(KeyCode::from_char('4'))),
        0xFFB5 => Some(KeyInput::Code(KeyCode::from_char('5'))),
        0xFFB6 => Some(KeyInput::Code(KeyCode::from_char('6'))),
        0xFFB7 => Some(KeyInput::Code(KeyCode::from_char('7'))),
        0xFFB8 => Some(KeyInput::Code(KeyCode::from_char('8'))),
        0xFFB9 => Some(KeyInput::Code(KeyCode::from_char('9'))),
        0xFFAB => Some(KeyInput::Code(KeyCode::from_char('+'))),
        0xFFAE => Some(KeyInput::Code(KeyCode::from_char(','))),
        0xFF9F => Some(KeyInput::Key(Key::Delete)),
        0xFFAF => Some(KeyInput::Code(KeyCode::from_char('/'))),
        0xFF99 => Some(KeyInput::Key(Key::Down)),
        0xFF9C => Some(KeyInput::Key(Key::End)),
        0xFF8D => Some(KeyInput::Key(Key::Enter)),
        0xFFBD => Some(KeyInput::Code(KeyCode::from_char('='))),
        0xFF91 => Some(KeyInput::Key(Key::F1)),
        0xFF92 => Some(KeyInput::Key(Key::F2)),
        0xFF93 => Some(KeyInput::Key(Key::F3)),
        0xFF94 => Some(KeyInput::Key(Key::F4)),
        0xFF95 => Some(KeyInput::Key(Key::Home)),
        0xFF9E => Some(KeyInput::Key(Key::Insert)),
        0xFF96 => Some(KeyInput::Key(Key::Left)),
        0xFFAA => Some(KeyInput::Code(KeyCode::from_char('*'))),
        0xFF9B => Some(KeyInput::Key(Key::PageDown)),
        0xFF9A => Some(KeyInput::Key(Key::PageUp)),
        0xFF98 => Some(KeyInput::Key(Key::Right)),
        0xFF80 => Some(KeyInput::Key(Key::Space)),
        0xFFAD => Some(KeyInput::Code(KeyCode::from_char('-'))),
        0xFF89 => Some(KeyInput::Key(Key::Tab)),
        0xFF97 => Some(KeyInput::Key(Key::Up)),
        _ => None,
    }
}

/// The printable character of a keysym: Latin-1 keysyms stand for their code
/// point, dead keysyms for their combining character, Unicode keysyms (bit 24
/// set) for the code point below.
pub open spec fn keysym_char(keysym: u32) -> Option<char> {
    if (0x20 <= keysym <= 0x7E) || (0xA0 <= keysym <= 0xFF) {
        Some(keysym as char)
    } else if dead_keysym_combining(keysym) is Some {
        dead_keysym_combining(keysym)
    } else if 0x0100_0100 <= keysym <= 0x0110_FFFF && !(0x0100_D800 <= keysym <= 0x0100_DFFF) {
        Some((keysym - 0x0100_0000) as char)
    } else {
        None
    }
}

/// The printable character associated with a keysym, if any.
pub fn char_for_keysym(keysym: u32) -> (c: Option<char>)
    ensures
        c == keysym_char(keysym),
{
    if (0x20 <= keysym && keysym <= 0x7E) || (0xA0 <= keysym && keysym <= 0xFF) {
        return char_from_u32(keysym);
    }
    if let Some(combining) = keysym_combining(keysym) {
        return Some(combining);
    }
    if 0x0100_0100 <= keysym && keysym <= 0x0110_FFFF && !(0x0100_D800 <= keysym && keysym
        <= 0x0100_DFFF) {
        return char_from_u32(keysym - 0x0100_0000);
    }
    None
}

/// The keysym a character is sent as: the dead keysym of a combining
/// character, otherwise its character keysym.
pub open spec fn char_keysym(c: char) -> u32 {
    match combining_dead_keysym(c) {
        Some(keysym) => keysym,
        None => keysym_of_char(c),
    }
}

/// The keysym a key code is sent as: its virtual key code, else the keysym of
/// its character.
pub open spec fn keycode_keysym(key: KeyCode) -> Option<u32> {
    if key.vk is Some {
        key.vk
    } else if key.char is Some {
        Some(char_keysym(key.char.unwrap()))
    } else {
        None
    }
}

/// Resolves a key code to a *keysym* for output.
pub fn key_to_keysym(key: &KeyCode) -> (keysym: Option<u32>)
    ensures
        keysym == keycode_keysym(*key),
{
    if let Some(vk) = key.vk {
        return Some(vk);
    }
    if let Some(c) = key.char {
        if let Some(keysym) = dead_keysym_for(c) {
            return Some(keysym);
        }
        return Some(char_to_keysym(c));
    }
    None
}

/// A character is sent as a keysym that stands for it again: Latin-1
/// characters as their code point, other characters as their code point
/// with bit 24 set (unless it is a combining character with a dead keysym),
/// so that reading the keysym back gives the character.
pub proof fn lemma_char_keysym_roundtrip(c: char)
    requires
        (0x20 <= (c as u32) <= 0x7E) || 0xA0 <= (c as u32),
    ensures
        combining_dead_keysym(c) is None && (c as u32) < 0x100 ==> char_keysym(c) == c as u32,
        combining_dead_keysym(c) is None && (c as u32) >= 0x100 ==> char_keysym(c) == (c as u32)
            + 0x0100_0000,
        combining_dead_keysym(c) is None ==> keysym_char(char_keysym(c)) == Some(c),
{
    if combining_dead_keysym(c) is None {
        let v = c as u32;
        if v >= 0x100 {
            assert(v <= 0x10FFFF);
            assert(!(0xD800 <= v <= 0xDFFF));
            assert(dead_keysym_combining((v + 0x0100_0000) as u32) is None);
            assert(((v + 0x0100_0000) as u32 - 0x0100_0000) as char == c);
        } else {
            assert((v as char) == c);
        }
    }
}

/// The keysym at `index` in the row of `keycode`, falling back on the
/// unshifted and first-group entries as *X* does for empty entries.
pub open spec fn keysym_at(mapping: Seq<Seq<u32>>, min_keycode: u8, keycode: u8, index: u8) -> u32
    decreases index,
{
    if keycode < min_keycode || keycode - min_keycode >= mapping.len() {
        0
    } else {
        let syms = mapping[keycode - min_keycode];
        let keysym = if index < syms.len() {
            syms[index as int]
        } else {
            0
        };
        if keysym != 0 {
            keysym
        } else if index & 2 != 0 {
            proof {
                assert(index & 2 != 0 ==> index & !2u8 < index) by (bit_vector);
            }
            keysym_at(mapping, min_keycode, keycode, index & !2u8)
        } else if index & 1 != 0 {
            proof {
                assert(index & 1 != 0 ==> index & !1u8 < index) by (bit_vector);
            }
            keysym_at(mapping, min_keycode, keycode, index & !1u8)
        } else {
            0
        }
    }
}

/// The listener value of a key event, from the keysym the event's keycode
/// and modifier state select.
pub open spec fn event_input(t: Translator, keycode: u8, state: u16) -> Option<KeyInput> {
    let mapping = t.mapping.deep_view();
    if keycode < t.min_keycode || keycode - t.min_keycode >= mapping.len() {
        None
    } else {
        let index: u8 = ((if state & 1 != 0 {
            1u8
        } else {
            0u8
        }) + (if state & t.alt_gr_mask != 0 {
            2u8
        } else {
            0u8
        })) as u8;
        let keysym = keysym_at(mapping, t.min_keycode, keycode, index);
        let numlock_index: u8 = if state & t.numlock_mask != 0 {
            1
        } else {
            0
        };
        let recalculated = keysym_at(mapping, t.min_keycode, keycode, numlock_index);
        if first_key(keysym_is(keysym)) is Some {
            Some(KeyInput::Key(first_key(keysym_is(keysym)).unwrap()))
        } else if keypad_input(keysym) is Some && keypad_input(recalculated) is Some {
            keypad_input(recalculated)
        } else if keysym_char(keysym) is Some {
            let c = keysym_char(keysym).unwrap();
            let ch = if index & 1 != 0 {
                uppercase_first(c)
            } else {
                c
            };
            match combining_standalone(ch) {
                Some(dead) => match dead_combining(dead) {
                    Some(combining) => Some(
                        KeyInput::Code(
                            KeyCode {
                                vk: Some(keysym),
                                char: Some(dead),
                                is_dead: true,
                                combining: Some(combining),
                                symbol: None,
                            },
                        ),
                    ),
                    None => None,
                },
                None => Some(KeyInput::Code(KeyCode { vk: Some(keysym), ..keycode_of_char(ch) })),
            }
        } else {
            Some(KeyInput::Code(keycode_of_vk(keysym)))
        }
    }
}

/// The keypad digit keysyms `KP_0` to `KP_9` stand for the digit characters.
pub proof fn lemma_keypad_digits(d: u32)
    requires
        d < 10,
    ensures
        keypad_input((0xFFB0 + d) as u32) == Some(KeyInput::Code(keycode_of_char(digit_char(d as nat)))),
{
    if d == 0 {
        assert(digit_char(0) == '0');
    } else if d == 1 {
        assert(digit_char(1) == '1');
    } else if d == 2 {
        assert(digit_char(2) == '2');
    } else if d == 3 {
        assert(digit_char(3) == '3');
    } else if d == 4 {
        assert(digit_char(4) == '4');
    } else if d == 5 {
        assert(digit_char(5) == '5');
    } else if d == 6 {
        assert(digit_char(6) == '6');
    } else if d == 7 {
        assert(digit_char(7) == '7');
    } else if d == 8 {
        assert(digit_char(8) == '8');
    } else {
        assert(digit_char(9) == '9');
    }
}

/// Keypad keys are read with the num lock state: for a keycode whose
/// unshifted keysym is a keypad keysym (and no special key), pressed without
/// shift or the second group, the key is the keypad key of the row's second
/// keysym when num lock is on and of its first keysym when it is off.
pub proof fn lemma_keypad_numlock(t: Translator, keycode: u8, state: u16)
    requires
        t.min_keycode <= keycode,
        keycode - t.min_keycode < t.mapping.deep_view().len(),
        t.mapping.deep_view()[keycode - t.min_keycode].len() >= 2,
        t.mapping.deep_view()[keycode - t.min_keycode][0] != 0,
        t.mapping.deep_view()[keycode - t.min_keycode][1] != 0,
        keypad_input(t.mapping.deep_view()[keycode - t.min_keycode][0]) is Some,
        keypad_input(t.mapping.deep_view()[keycode - t.min_keycode][1]) is Some,
        first_key(keysym_is(t.mapping.deep_view()[keycode - t.min_keycode][0])) is None,
        state & 1 == 0,
        state & t.alt_gr_mask == 0,
    ensures
        state & t.numlock_mask != 0 ==> event_input(t, keycode, state) == keypad_input(
            t.mapping.deep_view()[keycode - t.min_keycode][1],
        ),
        state & t.numlock_mask == 0 ==> event_input(t, keycode, state) == keypad_input(
            t.mapping.deep_view()[keycode - t.min_keycode][0],
        ),
{
    let mapping = t.mapping.deep_view();
    let row = mapping[keycode - t.min_keycode];
    assert(keysym_at(mapping, t.min_keycode, keycode, 0) == row[0]);
    assert(keysym_at(mapping, t.min_keycode, keycode, 1) == row[1]);
}

/// Whether a keysym is that of an ASCII letter.
pub open spec fn is_letter_keysym(k: u32) -> bool {
    (0x41 <= k <= 0x5A) || (0x61 <= k <= 0x7A)
}

/// The keysym of a key event is chosen by the modifier state: the row's
/// first keysym with neither shift nor the second group, the second with
/// shift, the third with the group and the fourth with both. For a row of
/// letters, the key is the character of that keysym, put in upper case when
/// shift is held, carrying the keysym.
pub proof fn lemma_event_columns(t: Translator, keycode: u8, state: u16)
    requires
        t.min_keycode <= keycode,
        keycode - t.min_keycode < t.mapping.deep_view().len(),
        t.mapping.deep_view()[keycode - t.min_keycode].len() >= 4,
        forall|i: int|
            0 <= i < 4 ==> is_letter_keysym(#[trigger] t.mapping.deep_view()[keycode - t.min_keycode][i]),
    ensures
        ({
            let row = t.mapping.deep_view()[keycode - t.min_keycode];
            let shift = state & 1 != 0;
            let group = state & t.alt_gr_mask != 0;
            let column: int = (if shift { 1int } else { 0int }) + (if group { 2int } else { 0int });
            let keysym = row[column];
            let c = keysym as char;
            event_input(t, keycode, state) == Some(
                KeyInput::Code(
                    KeyCode {
                        vk: Some(keysym),
                        ..keycode_of_char(if shift { uppercase_first(c) } else { c })
                    },
                ),
            )
        }),
{
    let mapping = t.mapping.deep_view();
    let row = mapping[keycode - t.min_keycode];
    assert(is_letter_keysym(row[0]));
    assert(is_letter_keysym(row[1]));
    assert(is_letter_keysym(row[2]));
    assert(is_letter_keysym(row[3]));
    assert(keysym_at(mapping, t.min_keycode, keycode, 0) == row[0]);
    assert(keysym_at(mapping, t.min_keycode, keycode, 1) == row[1]);
    assert(keysym_at(mapping, t.min_keycode, keycode, 2) == row[2]);
    assert(keysym_at(mapping, t.min_keycode, keycode, 3) == row[3]);
    let shift = state & 1 != 0;
    let group = state & t.alt_gr_mask != 0;
    let index: u8 = ((if shift { 1u8 } else { 0u8 }) + (if group { 2u8 } else { 0u8 })) as u8;
    assert(index & 1 != 0 <==> shift) by (bit_vector)
        requires
            index == ((if shift { 1u8 } else { 0u8 }) + (if group { 2u8 } else { 0u8 })) as u8,
    ;
    let keysym = keysym_at(mapping, t.min_keycode, keycode, index);
    assert(is_letter_keysym(keysym));
    crate::keyboard::key::lemma_first_key_sound(keysym_is(keysym));
    if first_key(keysym_is(keysym)) is Some {
        let k = first_key(keysym_is(keysym)).unwrap();
        assert(xorg_keysym(k) == keysym);
    }
    let c = keysym as char;
    let ch = if index & 1 != 0 { uppercase_first(c) } else { c };
    assert(combining_standalone(ch) is None);
}

/// Translates key events into listener values, using the keyboard mapping of
/// the display.
pub struct Translator {
    /// The raw keyboard mapping: row `i` holds the keysyms of keycode
    /// `min_keycode + i`.
    pub mapping: Vec<Vec<u32>>,
    /// The first keycode of the mapping.
    pub min_keycode: u8,
    /// The modifier mask of the second keysym group.
    pub alt_gr_mask: u16,
    /// The modifier mask of num lock.
    pub numlock_mask: u16,
}

impl Translator {
    /// The keysym at `index` in the row of `keycode`, with the *X* fallbacks
    /// for empty entries; `0` for a keycode outside the mapping.
    pub fn keycode_to_keysym(&self, keycode: u8, index: u8) -> (keysym: u32)
        ensures
            keysym == keysym_at(self.mapping.deep_view(), self.min_keycode, keycode, index),
        decreases index,
    {
        if keycode < self.min_keycode {
            return 0;
        }
        let i = (keycode - self.min_keycode) as usize;
        if i >= self.mapping.len() {
            return 0;
        }
        let syms = &self.mapping[i];
        assert(self.mapping.deep_view()[i as int] == syms@);
        let keysym = if (index as usize) < syms.len() {
            syms[index as usize]
        } else {
            0
        };
        if keysym != 0 {
            keysym
        } else if index & 2 != 0 {
            assert(index & 2 != 0 ==> index & !2u8 < index) by (bit_vector);
            self.keycode_to_keysym(keycode, index & !2u8)
        } else if index & 1 != 0 {
            assert(index & 1 != 0 ==> index & !1u8 < index) by (bit_vector);
            self.keycode_to_keysym(keycode, index & !1u8)
        } else {
            0
        }
    }

    /// Converts a keycode and modifier state into a [`KeyInput`]: a special
    /// key, a keypad key (read with the num lock state), a character or
    /// dead key, or else the keysym as a virtual key code; `None` for a
    /// keycode outside the mapping.
    pub fn event_to_key(&self, keycode: u8, state: u16) -> (input: Option<KeyInput>)
        ensures
            input == event_input(*self, keycode, state),
    {
        // Out-of-range keycodes have no mapping row.
        if keycode < self.min_keycode || (keycode - self.min_keycode) as usize >= self.mapping.len() {
            return None;
        }
        let index: u8 = (if state & 1 != 0 {
            1u8
        } else {
            0u8
        }) + (if state & self.alt_gr_mask != 0 {
            2u8
        } else {
            0u8
        });
        let keysym = self.keycode_to_keysym(keycode, index);

        // First try special keys...
        if let Some(key) = keysym_to_special(keysym) {
            return Some(KeyInput::Key(key));
        }
        // ...then keypad keys, recalculating with the numlock state...
        if keypad_keyinput(keysym).is_some() {
            let numlock_index: u8 = if state & self.numlock_mask != 0 {
                1
            } else {
                0
            };
            let recalculated = self.keycode_to_keysym(keycode, numlock_index);
            if let Some(k) = keypad_keyinput(recalculated) {
                return Some(k);
            }
        }
        // ...then characters...
        if let Some(c) = char_for_keysym(keysym) {
            let ch = if index & 1 != 0 {
                char_uppercase(c)
            } else {
                c
            };
            if let Some(dead) = dead_standalone(ch) {
                return match KeyCode::from_vk_dead(dead, keysym) {
                    Ok(k) => Some(KeyInput::Code(k)),
                    Err(_) => None,
                };
            }
            return Some(KeyInput::Code(KeyCode::from_char_vk(ch, keysym)));
        }
        // ...and fall back on a virtual key code.
        Some(KeyInput::Code(KeyCode::from_vk(keysym)))
    }
}

/// How a key code is sent on the current layout.
#[derive(Clone, Copy, Debug, PartialEq, Eq, Structural)]
pub enum XorgSend {
    /// A key with a virtual key code: the keycode that holds its keysym,
    /// pressed on its own.
    Key(u8),
    /// A character on the layout: its keycode, and the shift state to hold
    /// around it.
    Mapped(u8, u16),
    /// A character that is not on the layout: its keysym, for which a free
    /// keycode is to be borrowed.
    Borrow(u32),
}

/// How a key code is sent with the raw keyboard mapping `raw` and the group
/// modifier mask `group_mask`; `None` when it cannot be.
pub open spec fn send_plan_of(key: KeyCode, raw: Seq<Seq<u32>>, min_keycode: u8, group_mask: u16) -> Option<
    XorgSend,
> {
    match keycode_keysym(key) {
        None => None,
        Some(keysym) => if key.vk is Some {
            match keycode_of_keysym(raw, min_keycode, keysym) {
                Some(kc) => Some(XorgSend::Key(kc)),
                None => None,
            }
        } else {
            let m = mapping_of_rows(raw, min_keycode, group_mask, raw.len() as int);
            if m.contains_key(keysym) {
                Some(XorgSend::Mapped(m[keysym].0, m[keysym].1))
            } else {
                Some(XorgSend::Borrow(keysym))
            }
        },
    }
}

/// How a key code is sent on the current layout, or the error that names a
/// key code that cannot be.
pub fn send_plan(key: &KeyCode, raw: &Vec<Vec<u32>>, min_keycode: u8, group_mask: u16) -> (plan:
    Result<XorgSend, Error>)
    requires
        min_keycode + raw@.len() <= 256,
        send_plan_of(*key, raw.deep_view(), min_keycode, group_mask) is None ==> keycode_wf(*key),
    ensures
        send_plan_of(*key, raw.deep_view(), min_keycode, group_mask) matches Some(p) ==> plan
            == Ok::<XorgSend, Error>(p),
        send_plan_of(*key, raw.deep_view(), min_keycode, group_mask) is None ==> (plan matches Err(
            Error::InvalidKey(m),
        ) && m@ == keycode_repr(*key)),
{
    let keysym = match key_to_keysym(key) {
        Some(k) => k,
        None => {
            return Err(Error::InvalidKey(key.repr()));
        },
    };
    if key.vk.is_some() {
        return match keysym_to_keycode(raw, min_keycode, keysym) {
            Some(kc) => Ok(XorgSend::Key(kc)),
            None => Err(Error::InvalidKey(key.repr())),
        };
    }
    let mapping = keyboard_mapping(raw, min_keycode, group_mask);
    match mapping.get(&keysym) {
        Some(entry) => Ok(XorgSend::Mapped(entry.0, entry.1)),
        None => Ok(XorgSend::Borrow(keysym)),
    }
}

} // verus!
