//! Well-known keys that may not correspond to a printable character.

use vstd::prelude::*;

use crate::util::text::str_eq;

verus! {

/// A key that may not correspond to a printable character, such as a modifier
/// or function key.
#[derive(Clone, Copy, Debug, PartialEq, Eq, Hash, Structural)]
pub enum Key {
    Alt,
    AltL,
    AltR,
    AltGr,
    Backspace,
    CapsLock,
    Cmd,
    CmdL,
    CmdR,
    Ctrl,
    CtrlL,
    CtrlR,
    Delete,
    Down,
    End,
    Enter,
    Esc,
    F1,
    F2,
    F3,
    F4,
    F5,
    F6,
    F7,
    F8,
    F9,
    F10,
    F11,
    F12,
    F13,
    F14,
    F15,
    F16,
    F17,
    F18,
    F19,
    F20,
    Home,
    Left,
    PageDown,
    PageUp,
    Right,
    Shift,
    ShiftL,
    ShiftR,
    Space,
    Tab,
    Up,
    MediaPlayPause,
    MediaVolumeMute,
    MediaVolumeDown,
    MediaVolumeUp,
    MediaPrevious,
    MediaNext,
    Insert,
    Menu,
    NumLock,
    Pause,
    PrintScreen,
    ScrollLock,
}

/// The number of [`Key`] variants.
pub const KEY_COUNT: usize = 60;

/// All key variants, in declaration order.
pub open spec fn all_keys() -> Seq<Key> {
    seq![
        Key::Alt,
        Key::AltL,
        Key::AltR,
        Key::AltGr,
        Key::Backspace,
        Key::CapsLock,
        Key::Cmd,
        Key::CmdL,
        Key::CmdR,
        Key::Ctrl,
        Key::CtrlL,
        Key::CtrlR,
        Key::Delete,
        Key::Down,
        Key::End,
        Key::Enter,
        Key::Esc,
        Key::F1,
        Key::F2,
        Key::F3,
        Key::F4,
        Key::F5,
        Key::F6,
        Key::F7,
        Key::F8,
        Key::F9,
        Key::F10,
        Key::F11,
        Key::F12,
        Key::F13,
        Key::F14,
        Key::F15,
        Key::F16,
        Key::F17,
        Key::F18,
        Key::F19,
        Key::F20,
        Key::Home,
        Key::Left,
        Key::PageDown,
        Key::PageUp,
        Key::Right,
        Key::Shift,
        Key::ShiftL,
        Key::ShiftR,
        Key::Space,
        Key::Tab,
        Key::Up,
        Key::MediaPlayPause,
        Key::MediaVolumeMute,
        Key::MediaVolumeDown,
        Key::MediaVolumeUp,
        Key::MediaPrevious,
        Key::MediaNext,
        Key::Insert,
        Key::Menu,
        Key::NumLock,
        Key::Pause,
        Key::PrintScreen,
        Key::ScrollLock,
    ]
}

/// The snake-case name of a key.
pub open spec fn key_name(key: Key) -> Seq<char> {
    match key {
        Key::Alt => seq!['a', 'l', 't'],
        Key::AltL => seq!['a', 'l', 't', '_', 'l'],
        Key::AltR => seq!['a', 'l', 't', '_', 'r'],
        Key::AltGr => seq!['a', 'l', 't', '_', 'g', 'r'],
        Key::Backspace => seq!['b', 'a', 'c', 'k', 's', 'p', 'a', 'c', 'e'],
        Key::CapsLock => seq!['c', 'a', 'p', 's', '_', 'l', 'o', 'c', 'k'],
        Key::Cmd => seq!['c', 'm', 'd'],
        Key::CmdL => seq!['c', 'm', 'd', '_', 'l'],
        Key::CmdR => seq!['c', 'm', 'd', '_', 'r'],
        Key::Ctrl => seq!['c', 't', 'r', 'l'],
        Key::CtrlL => seq!['c', 't', 'r', 'l', '_', 'l'],
        Key::CtrlR => seq!['c', 't', 'r', 'l', '_', 'r'],
        Key::Delete => seq!['d', 'e', 'l', 'e', 't', 'e'],
        Key::Down => seq!['d', 'o', 'w', 'n'],
        Key::End => seq!['e', 'n', 'd'],
        Key::Enter => seq!['e', 'n', 't', 'e', 'r'],
        Key::Esc => seq!['e', 's', 'c'],
        Key::F1 => seq!['f', '1'],
        Key::F2 => seq!['f', '2'],
        Key::F3 => seq!['f', '3'],
        Key::F4 => seq!['f', '4'],
        Key::F5 => seq!['f', '5'],
        Key::F6 => seq!['f', '6'],
        Key::F7 => seq!['f', '7'],
        Key::F8 => seq!['f', '8'],
        Key::F9 => seq!['f', '9'],
        Key::F10 => seq!['f', '1', '0'],
        Key::F11 => seq!['f', '1', '1'],
        Key::F12 => seq!['f', '1', '2'],
        Key::F13 => seq!['f', '1', '3'],
        Key::F14 => seq!['f', '1', '4'],
        Key::F15 => seq!['f', '1', '5'],
        Key::F16 => seq!['f', '1', '6'],
        Key::F17 => seq!['f', '1', '7'],
        Key::F18 => seq!['f', '1', '8'],
        Key::F19 => seq!['f', '1', '9'],
        Key::F20 => seq!['f', '2', '0'],
        Key::Home => seq!['h', 'o', 'm', 'e'],
        Key::Left => seq!['l', 'e', 'f', 't'],
        Key::PageDown => seq!['p', 'a', 'g', 'e', '_', 'd', 'o', 'w', 'n'],
        Key::PageUp => seq!['p', 'a', 'g', 'e', '_', 'u', 'p'],
        Key::Right => seq!['r', 'i', 'g', 'h', 't'],
        Key::Shift => seq!['s', 'h', 'i', 'f', 't'],
        Key::ShiftL => seq!['s', 'h', 'i', 'f', 't', '_', 'l'],
        Key::ShiftR => seq!['s', 'h', 'i', 'f', 't', '_', 'r'],
        Key::Space => seq!['s', 'p', 'a', 'c', 'e'],
        Key::Tab => seq!['t', 'a', 'b'],
        Key::Up => seq!['u', 'p'],
        Key::MediaPlayPause => seq!['m', 'e', 'd', 'i', 'a', '_', 'p', 'l', 'a', 'y', '_', 'p', 'a', 'u', 's', 'e'],
        Key::MediaVolumeMute => seq!['m', 'e', 'd', 'i', 'a', '_', 'v', 'o', 'l', 'u', 'm', 'e', '_', 'm', 'u', 't', 'e'],
        Key::MediaVolumeDown => seq!['m', 'e', 'd', 'i', 'a', '_', 'v', 'o', 'l', 'u', 'm', 'e', '_', 'd', 'o', 'w', 'n'],
        Key::MediaVolumeUp => seq!['m', 'e', 'd', 'i', 'a', '_', 'v', 'o', 'l', 'u', 'm', 'e', '_', 'u', 'p'],
        Key::MediaPrevious => seq!['m', 'e', 'd', 'i', 'a', '_', 'p', 'r', 'e', 'v', 'i', 'o', 'u', 's'],
        Key::MediaNext => seq!['m', 'e', 'd', 'i', 'a', '_', 'n', 'e', 'x', 't'],
        Key::Insert => seq!['i', 'n', 's', 'e', 'r', 't'],
        Key::Menu => seq!['m', 'e', 'n', 'u'],
        Key::NumLock => seq!['n', 'u', 'm', '_', 'l', 'o', 'c', 'k'],
        Key::Pause => seq!['p', 'a', 'u', 's', 'e'],
        Key::PrintScreen => seq!['p', 'r', 'i', 'n', 't', '_', 's', 'c', 'r', 'e', 'e', 'n'],
        Key::ScrollLock => seq!['s', 'c', 'r', 'o', 'l', 'l', '_', 'l', 'o', 'c', 'k'],
    }
}

/// The position of a key in [`all_keys`].
pub open spec fn key_index(key: Key) -> int {
    match key {
        Key::Alt => 0,
        Key::AltL => 1,
        Key::AltR => 2,
        Key::AltGr => 3,
        Key::Backspace => 4,
        Key::CapsLock => 5,
        Key::Cmd => 6,
        Key::CmdL => 7,
        Key::CmdR => 8,
        Key::Ctrl => 9,
        Key::CtrlL => 10,
        Key::CtrlR => 11,
        Key::Delete => 12,
        Key::Down => 13,
        Key::End => 14,
        Key::Enter => 15,
        Key::Esc => 16,
        Key::F1 => 17,
        Key::F2 => 18,
        Key::F3 => 19,
        Key::F4 => 20,
        Key::F5 => 21,
        Key::F6 => 22,
        Key::F7 => 23,
        Key::F8 => 24,
        Key::F9 => 25,
        Key::F10 => 26,
        Key::F11 => 27,
        Key::F12 => 28,
        Key::F13 => 29,
        Key::F14 => 30,
        Key::F15 => 31,
        Key::F16 => 32,
        Key::F17 => 33,
        Key::F18 => 34,
        Key::F19 => 35,
        Key::F20 => 36,
        Key::Home => 37,
        Key::Left => 38,
        Key::PageDown => 39,
        Key::PageUp => 40,
        Key::Right => 41,
        Key::Shift => 42,
        Key::ShiftL => 43,
        Key::ShiftR => 44,
        Key::Space => 45,
        Key::Tab => 46,
        Key::Up => 47,
        Key::MediaPlayPause => 48,
        Key::MediaVolumeMute => 49,
        Key::MediaVolumeDown => 50,
        Key::MediaVolumeUp => 51,
        Key::MediaPrevious => 52,
        Key::MediaNext => 53,
        Key::Insert => 54,
        Key::Menu => 55,
        Key::NumLock => 56,
        Key::Pause => 57,
        Key::PrintScreen => 58,
        Key::ScrollLock => 59,
    }
}

/// The first key of `keys[from..]` whose name is `name`.
pub open spec fn first_named(keys: Seq<Key>, from: int, name: Seq<char>) -> Option<Key>
    decreases keys.len() - from,
{
    if from < 0 || from >= keys.len() {
        None
    } else if key_name(keys[from]) == name {
        Some(keys[from])
    } else {
        first_named(keys, from + 1, name)
    }
}

/// The key named `name`, if any.
pub open spec fn key_from_name(name: Seq<char>) -> Option<Key> {
    first_named(all_keys(), 0, name)
}

/// The generic modifier a key normalises to, if it is a modifier.
pub open spec fn key_normal_modifier(key: Key) -> Option<Key> {
    match key {
        Key::Alt | Key::AltL | Key::AltR => Some(Key::Alt),
        Key::AltGr => Some(Key::AltGr),
        Key::Cmd | Key::CmdL | Key::CmdR => Some(Key::Cmd),
        Key::Ctrl | Key::CtrlL | Key::CtrlR => Some(Key::Ctrl),
        Key::Shift | Key::ShiftL | Key::ShiftR => Some(Key::Shift),
        _ => None,
    }
}


/// The key whose name has length `len`, second character `second` and last
/// character `last`; these three determine a key name.
spec fn key_of_signature(len: int, second: char, last: char) -> Option<Key> {
    if len == 3 && second == 'l' && last == 't' {
        Some(Key::Alt)
    } else if len == 5 && second == 'l' && last == 'l' {
        Some(Key::AltL)
    } else if len == 5 && second == 'l' && last == 'r' {
        Some(Key::AltR)
    } else if len == 6 && second == 'l' && last == 'r' {
        Some(Key::AltGr)
    } else if len == 9 && second == 'a' && last == 'e' {
        Some(Key::Backspace)
    } else if len == 9 && second == 'a' && last == 'k' {
        Some(Key::CapsLock)
    } else if len == 3 && second == 'm' && last == 'd' {
        Some(Key::Cmd)
    } else if len == 5 && second == 'm' && last == 'l' {
        Some(Key::CmdL)
    } else if len == 5 && second == 'm' && last == 'r' {
        Some(Key::CmdR)
    } else if len == 4 && second == 't' && last == 'l' {
        Some(Key::Ctrl)
    } else if len == 6 && second == 't' && last == 'l' {
        Some(Key::CtrlL)
    } else if len == 6 && second == 't' && last == 'r' {
        Some(Key::CtrlR)
    } else if len == 6 && second == 'e' && last == 'e' {
        Some(Key::Delete)
    } else if len == 4 && second == 'o' && last == 'n' {
        Some(Key::Down)
    } else if len == 3 && second == 'n' && last == 'd' {
        Some(Key::End)
    } else if len == 5 && second == 'n' && last == 'r' {
        Some(Key::Enter)
    } else if len == 3 && second == 's' && last == 'c' {
        Some(Key::Esc)
    } else if len == 2 && second == '1' && last == '1' {
        Some(Key::F1)
    } else if len == 2 && second == '2' && last == '2' {
        Some(Key::F2)
    } else if len == 2 && second == '3' && last == '3' {
        Some(Key::F3)
    } else if len == 2 && second == '4' && last == '4' {
        Some(Key::F4)
    } else if len == 2 && second == '5' && last == '5' {
        Some(Key::F5)
    } else if len == 2 && second == '6' && last == '6' {
        Some(Key::F6)
    } else if len == 2 && second == '7' && last == '7' {
        Some(Key::F7)
    } else if len == 2 && second == '8' && last == '8' {
        Some(Key::F8)
    } else if len == 2 && second == '9' && last == '9' {
        Some(Key::F9)
    } else if len == 3 && second == '1' && last == '0' {
        Some(Key::F10)
    } else if len == 3 && second == '1' && last == '1' {
        Some(Key::F11)
    } else if len == 3 && second == '1' && last == '2' {
        Some(Key::F12)
    } else if len == 3 && second == '1' && last == '3' {
        Some(Key::F13)
    } else if len == 3 && second == '1' && last == '4' {
        Some(Key::F14)
    } else if len == 3 && second == '1' && last == '5' {
        Some(Key::F15)
    } else if len == 3 && second == '1' && last == '6' {
        Some(Key::F16)
    } else if len == 3 && second == '1' && last == '7' {
        Some(Key::F17)
    } else if len == 3 && second == '1' && last == '8' {
        Some(Key::F18)
    } else if len == 3 && second == '1' && last == '9' {
        Some(Key::F19)
    } else if len == 3 && second == '2' && last == '0' {
        Some(Key::F20)
    } else if len == 4 && second == 'o' && last == 'e' {
        Some(Key::Home)
    } else if len == 4 && second == 'e' && last == 't' {
        Some(Key::Left)
    } else if len == 9 && second == 'a' && last == 'n' {
        Some(Key::PageDown)
    } else if len == 7 && second == 'a' && last == 'p' {
        Some(Key::PageUp)
    } else if len == 5 && second == 'i' && last == 't' {
        Some(Key::Right)
    } else if len == 5 && second == 'h' && last == 't' {
        Some(Key::Shift)
    } else if len == 7 && second == 'h' && last == 'l' {
        Some(Key::ShiftL)
    } else if len == 7 && second == 'h' && last == 'r' {
        Some(Key::ShiftR)
    } else if len == 5 && second == 'p' && last == 'e' {
        Some(Key::Space)
    } else if len == 3 && second == 'a' && last == 'b' {
        Some(Key::Tab)
    } else if len == 2 && second == 'p' && last == 'p' {
        Some(Key::Up)
    } else if len == 16 && second == 'e' && last == 'e' {
        Some(Key::MediaPlayPause)
    } else if len == 17 && second == 'e' && last == 'e' {
        Some(Key::MediaVolumeMute)
    } else if len == 17 && second == 'e' && last == 'n' {
        Some(Key::MediaVolumeDown)
    } else if len == 15 && second == 'e' && last == 'p' {
        Some(Key::MediaVolumeUp)
    } else if len == 14 && second == 'e' && last == 's' {
        Some(Key::MediaPrevious)
    } else if len == 10 && second == 'e' && last == 't' {
        Some(Key::MediaNext)
    } else if len == 6 && second == 'n' && last == 't' {
        Some(Key::Insert)
    } else if len == 4 && second == 'e' && last == 'u' {
        Some(Key::Menu)
    } else if len == 8 && second == 'u' && last == 'k' {
        Some(Key::NumLock)
    } else if len == 5 && second == 'a' && last == 'e' {
        Some(Key::Pause)
    } else if len == 12 && second == 'r' && last == 'n' {
        Some(Key::PrintScreen)
    } else if len == 11 && second == 'c' && last == 'k' {
        Some(Key::ScrollLock)
    } else {
        None
    }
}

proof fn lemma_signature_of_name(k: Key)
    ensures
        key_of_signature(key_name(k).len() as int, key_name(k)[1], key_name(k).last()) == Some(k),
{
}

/// Distinct keys have distinct names.
pub proof fn lemma_key_name_injective(k1: Key, k2: Key)
    requires
        key_name(k1) == key_name(k2),
    ensures
        k1 == k2,
{
    lemma_signature_of_name(k1);
    lemma_signature_of_name(k2);
}

pub proof fn lemma_index_of_key(k: Key)
    ensures
        0 <= key_index(k) < all_keys().len(),
        all_keys()[key_index(k)] == k,
{
}

proof fn lemma_first_named_reaches(k: Key, from: int)
    requires
        0 <= from <= key_index(k),
    ensures
        first_named(all_keys(), from, key_name(k)) == Some(k),
    decreases key_index(k) - from,
{
    lemma_index_of_key(k);
    if from < key_index(k) {
        let other = all_keys()[from];
        if key_name(other) == key_name(k) {
            lemma_key_name_injective(other, k);
            lemma_index_of_key(other);
        }
        lemma_first_named_reaches(k, from + 1);
    }
}

/// Whether `c` may stand in a key name: a lower case ASCII letter, a digit
/// or an underscore.
pub open spec fn is_name_char(c: char) -> bool {
    ('a' <= c && c <= 'z') || ('0' <= c && c <= '9') || c == '_'
}

/// Key names are made of lower case ASCII letters, digits and underscores.
#[verifier::rlimit(60)]
pub proof fn lemma_key_name_chars(k: Key)
    ensures
        key_name(k).len() > 0,
        forall|i: int| 0 <= i < key_name(k).len() ==> is_name_char(#[trigger] key_name(k)[i]),
{
}

/// Looking a key up by its name gives the key back.
pub proof fn lemma_name_roundtrip(k: Key)
    ensures
        key_from_name(key_name(k)) == Some(k),
{
    lemma_first_named_reaches(k, 0);
}

/// Normalising a modifier twice is the same as normalising it once: the
/// generic modifiers normalise to themselves.
pub proof fn lemma_normal_modifier_idempotent(k: Key)
    ensures
        key_normal_modifier(k) matches Some(base) ==> key_normal_modifier(base) == Some(base),
{
}

/// The first key of `all_keys()[from..]` that satisfies `p`.
pub open spec fn first_key_from(from: int, p: spec_fn(Key) -> bool) -> Option<Key>
    decreases 60 - from,
{
    if from < 0 || from >= 60 {
        None
    } else if p(all_keys()[from]) {
        Some(all_keys()[from])
    } else {
        first_key_from(from + 1, p)
    }
}

/// The first key, in declaration order, that satisfies `p`.
pub open spec fn first_key(p: spec_fn(Key) -> bool) -> Option<Key> {
    first_key_from(0, p)
}

proof fn lemma_first_key_from_found(k: Key, p: spec_fn(Key) -> bool, from: int)
    requires
        p(k),
        0 <= from <= key_index(k),
    ensures
        first_key_from(from, p) matches Some(k2) && p(k2) && key_index(k2) <= key_index(k),
    decreases key_index(k) - from,
{
    lemma_index_of_key(k);
    if from < key_index(k) && !p(all_keys()[from]) {
        lemma_first_key_from_found(k, p, from + 1);
    }
    if p(all_keys()[from]) {
        lemma_index_of_key(all_keys()[from]);
        let k2 = all_keys()[from];
        assert(key_index(k2) == from) by {
            lemma_key_index_of_position(from);
        }
    }
}

pub proof fn lemma_key_index_of_position(i: int)
    requires
        0 <= i < 60,
    ensures
        key_index(all_keys()[i]) == i,
{
}

proof fn lemma_first_key_from_satisfies(p: spec_fn(Key) -> bool, from: int)
    ensures
        first_key_from(from, p) matches Some(k2) ==> p(k2),
    decreases 60 - from,
{
    if 0 <= from < 60 && !p(all_keys()[from]) {
        lemma_first_key_from_satisfies(p, from + 1);
    }
}

/// A key that satisfies `p` makes `first_key(p)` find one at or before it.
pub proof fn lemma_first_key_found(k: Key, p: spec_fn(Key) -> bool)
    requires
        p(k),
    ensures
        first_key(p) matches Some(k2) && p(k2) && key_index(k2) <= key_index(k),
{
    lemma_index_of_key(k);
    lemma_first_key_from_found(k, p, 0);
}

/// What `first_key(p)` finds satisfies `p`, and it finds nothing only when no
/// key does.
pub proof fn lemma_first_key_sound(p: spec_fn(Key) -> bool)
    ensures
        first_key(p) matches Some(k2) ==> p(k2),
        first_key(p) is None ==> forall|k: Key| !#[trigger] p(k),
{
    lemma_first_key_from_satisfies(p, 0);
    if first_key(p) is None {
        assert forall|k: Key| !#[trigger] p(k) by {
            if p(k) {
                lemma_first_key_found(k, p);
            }
        }
    }
}

impl Key {
    /// The position of this key in declaration order.
    pub fn index(self) -> (i: usize)
        ensures
            i == key_index(self),
    {
        match self {
            Key::Alt => 0,
            Key::AltL => 1,
            Key::AltR => 2,
            Key::AltGr => 3,
            Key::Backspace => 4,
            Key::CapsLock => 5,
            Key::Cmd => 6,
            Key::CmdL => 7,
            Key::CmdR => 8,
            Key::Ctrl => 9,
            Key::CtrlL => 10,
            Key::CtrlR => 11,
            Key::Delete => 12,
            Key::Down => 13,
            Key::End => 14,
            Key::Enter => 15,
            Key::Esc => 16,
            Key::F1 => 17,
            Key::F2 => 18,
            Key::F3 => 19,
            Key::F4 => 20,
            Key::F5 => 21,
            Key::F6 => 22,
            Key::F7 => 23,
            Key::F8 => 24,
            Key::F9 => 25,
            Key::F10 => 26,
            Key::F11 => 27,
            Key::F12 => 28,
            Key::F13 => 29,
            Key::F14 => 30,
            Key::F15 => 31,
            Key::F16 => 32,
            Key::F17 => 33,
            Key::F18 => 34,
            Key::F19 => 35,
            Key::F20 => 36,
            Key::Home => 37,
            Key::Left => 38,
            Key::PageDown => 39,
            Key::PageUp => 40,
            Key::Right => 41,
            Key::Shift => 42,
            Key::ShiftL => 43,
            Key::ShiftR => 44,
            Key::Space => 45,
            Key::Tab => 46,
            Key::Up => 47,
            Key::MediaPlayPause => 48,
            Key::MediaVolumeMute => 49,
            Key::MediaVolumeDown => 50,
            Key::MediaVolumeUp => 51,
            Key::MediaPrevious => 52,
            Key::MediaNext => 53,
            Key::Insert => 54,
            Key::Menu => 55,
            Key::NumLock => 56,
            Key::Pause => 57,
            Key::PrintScreen => 58,
            Key::ScrollLock => 59,
        }
    }

    /// All key variants, in declaration order.
    pub fn all() -> (keys: Vec<Key>)
        ensures
            keys@ == all_keys(),
    {
        let keys = vec![
            Key::Alt,
            Key::AltL,
            Key::AltR,
            Key::AltGr,
            Key::Backspace,
            Key::CapsLock,
            Key::Cmd,
            Key::CmdL,
            Key::CmdR,
            Key::Ctrl,
            Key::CtrlL,
            Key::CtrlR,
            Key::Delete,
            Key::Down,
            Key::End,
            Key::Enter,
            Key::Esc,
            Key::F1,
            Key::F2,
            Key::F3,
            Key::F4,
            Key::F5,
            Key::F6,
            Key::F7,
            Key::F8,
            Key::F9,
            Key::F10,
            Key::F11,
            Key::F12,
            Key::F13,
            Key::F14,
            Key::F15,
            Key::F16,
            Key::F17,
            Key::F18,
            Key::F19,
            Key::F20,
            Key::Home,
            Key::Left,
            Key::PageDown,
            Key::PageUp,
            Key::Right,
            Key::Shift,
            Key::ShiftL,
            Key::ShiftR,
            Key::Space,
            Key::Tab,
            Key::Up,
            Key::MediaPlayPause,
            Key::MediaVolumeMute,
            Key::MediaVolumeDown,
            Key::MediaVolumeUp,
            Key::MediaPrevious,
            Key::MediaNext,
            Key::Insert,
            Key::Menu,
            Key::NumLock,
            Key::Pause,
            Key::PrintScreen,
            Key::ScrollLock,
        ];
        assert(keys@ =~= all_keys());
        keys
    }

    /// The snake-case name of this key, as used by hotkey descriptions.
    pub fn name(self) -> (name: &'static str)
        ensures
            name@ == key_name(self),
    {
        match self {
            Key::Alt => {
                proof { reveal_strlit("alt"); }
                "alt"
            },
            Key::AltL => {
                proof { reveal_strlit("alt_l"); }
                "alt_l"
            },
            Key::AltR => {
                proof { reveal_strlit("alt_r"); }
                "alt_r"
            },
            Key::AltGr => {
                proof { reveal_strlit("alt_gr"); }
                "alt_gr"
            },
            Key::Backspace => {
                proof { reveal_strlit("backspace"); }
                "backspace"
            },
            Key::CapsLock => {
                proof { reveal_strlit("caps_lock"); }
                "caps_lock"
            },
            Key::Cmd => {
                proof { reveal_strlit("cmd"); }
                "cmd"
            },
            Key::CmdL => {
                proof { reveal_strlit("cmd_l"); }
                "cmd_l"
            },
            Key::CmdR => {
                proof { reveal_strlit("cmd_r"); }
                "cmd_r"
            },
            Key::Ctrl => {
                proof { reveal_strlit("ctrl"); }
                "ctrl"
            },
            Key::CtrlL => {
                proof { reveal_strlit("ctrl_l"); }
                "ctrl_l"
            },
            Key::CtrlR => {
                proof { reveal_strlit("ctrl_r"); }
                "ctrl_r"
            },
            Key::Delete => {
                proof { reveal_strlit("delete"); }
                "delete"
            },
            Key::Down => {
                proof { reveal_strlit("down"); }
                "down"
            },
            Key::End => {
                proof { reveal_strlit("end"); }
                "end"
            },
            Key::Enter => {
                proof { reveal_strlit("enter"); }
                "enter"
            },
            Key::Esc => {
                proof { reveal_strlit("esc"); }
                "esc"
            },
            Key::F1 => {
                proof { reveal_strlit("f1"); }
                "f1"
            },
            Key::F2 => {
                proof { reveal_strlit("f2"); }
                "f2"
            },
            Key::F3 => {
                proof { reveal_strlit("f3"); }
                "f3"
            },
            Key::F4 => {
                proof { reveal_strlit("f4"); }
                "f4"
            },
            Key::F5 => {
                proof { reveal_strlit("f5"); }
                "f5"
            },
            Key::F6 => {
                proof { reveal_strlit("f6"); }
                "f6"
            },
            Key::F7 => {
                proof { reveal_strlit("f7"); }
                "f7"
            },
            Key::F8 => {
                proof { reveal_strlit("f8"); }
                "f8"
            },
            Key::F9 => {
                proof { reveal_strlit("f9"); }
                "f9"
            },
            Key::F10 => {
                proof { reveal_strlit("f10"); }
                "f10"
            },
            Key::F11 => {
                proof { reveal_strlit("f11"); }
                "f11"
            },
            Key::F12 => {
                proof { reveal_strlit("f12"); }
                "f12"
            },
            Key::F13 => {
                proof { reveal_strlit("f13"); }
                "f13"
            },
            Key::F14 => {
                proof { reveal_strlit("f14"); }
                "f14"
            },
            Key::F15 => {
                proof { reveal_strlit("f15"); }
                "f15"
            },
            Key::F16 => {
                proof { reveal_strlit("f16"); }
                "f16"
            },
            Key::F17 => {
                proof { reveal_strlit("f17"); }
                "f17"
            },
            Key::F18 => {
                proof { reveal_strlit("f18"); }
                "f18"
            },
            Key::F19 => {
                proof { reveal_strlit("f19"); }
                "f19"
            },
            Key::F20 => {
                proof { reveal_strlit("f20"); }
                "f20"
            },
            Key::Home => {
                proof { reveal_strlit("home"); }
                "home"
            },
            Key::Left => {
                proof { reveal_strlit("left"); }
                "left"
            },
            Key::PageDown => {
                proof { reveal_strlit("page_down"); }
                "page_down"
            },
            Key::PageUp => {
                proof { reveal_strlit("page_up"); }
                "page_up"
            },
            Key::Right => {
                proof { reveal_strlit("right"); }
                "right"
            },
            Key::Shift => {
                proof { reveal_strlit("shift"); }
                "shift"
            },
            Key::ShiftL => {
                proof { reveal_strlit("shift_l"); }
                "shift_l"
            },
            Key::ShiftR => {
                proof { reveal_strlit("shift_r"); }
                "shift_r"
            },
            Key::Space => {
                proof { reveal_strlit("space"); }
                "space"
            },
            Key::Tab => {
                proof { reveal_strlit("tab"); }
                "tab"
            },
            Key::Up => {
                proof { reveal_strlit("up"); }
                "up"
            },
            Key::MediaPlayPause => {
                proof { reveal_strlit("media_play_pause"); }
                "media_play_pause"
            },
            Key::MediaVolumeMute => {
                proof { reveal_strlit("media_volume_mute"); }
                "media_volume_mute"
            },
            Key::MediaVolumeDown => {
                proof { reveal_strlit("media_volume_down"); }
                "media_volume_down"
            },
            Key::MediaVolumeUp => {
                proof { reveal_strlit("media_volume_up"); }
                "media_volume_up"
            },
            Key::MediaPrevious => {
                proof { reveal_strlit("media_previous"); }
                "media_previous"
            },
            Key::MediaNext => {
                proof { reveal_strlit("media_next"); }
                "media_next"
            },
            Key::Insert => {
                proof { reveal_strlit("insert"); }
                "insert"
            },
            Key::Menu => {
                proof { reveal_strlit("menu"); }
                "menu"
            },
            Key::NumLock => {
                proof { reveal_strlit("num_lock"); }
                "num_lock"
            },
            Key::Pause => {
                proof { reveal_strlit("pause"); }
                "pause"
            },
            Key::PrintScreen => {
                proof { reveal_strlit("print_screen"); }
                "print_screen"
            },
            Key::ScrollLock => {
                proof { reveal_strlit("scroll_lock"); }
                "scroll_lock"
            },
        }
    }

    /// Looks up a key by its snake-case name.
    pub fn from_name(name: &str) -> (key: Option<Key>)
        ensures
            key == key_from_name(name@),
    {
        let keys = Key::all();
        let mut i: usize = 0;
        while i < keys.len()
            invariant
                keys@ == all_keys(),
                i <= keys.len(),
                first_named(all_keys(), 0, name@) == first_named(all_keys(), i as int, name@),
            decreases keys.len() - i,
        {
            let candidate = keys[i];
            if str_eq(candidate.name(), name) {
                return Some(candidate);
            }
            i = i + 1;
        }
        None
    }

    /// Returns the generic modifier this key normalises to, if it is a
    /// modifier.
    pub fn normal_modifier(self) -> (base: Option<Key>)
        ensures
            base == key_normal_modifier(self),
    {
        match self {
            Key::Alt | Key::AltL | Key::AltR => Some(Key::Alt),
            Key::AltGr => Some(Key::AltGr),
            Key::Cmd | Key::CmdL | Key::CmdR => Some(Key::Cmd),
            Key::Ctrl | Key::CtrlL | Key::CtrlR => Some(Key::Ctrl),
            Key::Shift | Key::ShiftL | Key::ShiftR => Some(Key::Shift),
            _ => None,
        }
    }
}

} // verus!
