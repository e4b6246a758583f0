//! Key event values: what listeners and hotkeys receive, and what can be
//! pressed.

use vstd::prelude::*;
use vstd::std_specs::cmp::PartialEqSpecImpl;
use vstd::std_specs::convert::FromSpecImpl;

use crate::keyboard::key::Key;
use crate::keyboard::keycode::{keycode_eq, keycode_same, KeyCode};

verus! {

/// A resolved key event value: either a well-known [`Key`] or a [`KeyCode`].
#[derive(Clone, Copy, Debug, Hash)]
pub enum KeyInput {
    /// A well-known key.
    Key(Key),
    /// A key code.
    Code(KeyCode),
}

/// Something that can be pressed or released: a [`Key`], a [`KeyCode`] or a
/// single character.
#[derive(Clone, Copy, Debug)]
pub enum Pressable {
    /// A well-known key.
    Key(Key),
    /// A key code.
    Code(KeyCode),
    /// A single character.
    Char(char),
}

/// Key input equality (`==`).
pub open spec fn keyinput_eq(a: KeyInput, b: KeyInput) -> bool {
    match (a, b) {
        (KeyInput::Key(x), KeyInput::Key(y)) => x == y,
        (KeyInput::Code(x), KeyInput::Code(y)) => keycode_eq(x, y),
        _ => false,
    }
}

/// Whether two key inputs are the same member of a hashed set.
pub open spec fn keyinput_same(a: KeyInput, b: KeyInput) -> bool {
    match (a, b) {
        (KeyInput::Key(x), KeyInput::Key(y)) => x == y,
        (KeyInput::Code(x), KeyInput::Code(y)) => keycode_same(x, y),
        _ => false,
    }
}

impl KeyInput {
    /// Key input equality, as `==` computes it.
    pub fn equals(&self, other: &KeyInput) -> (equal: bool)
        ensures
            equal == keyinput_eq(*self, *other),
    {
        match (self, other) {
            (KeyInput::Key(x), KeyInput::Key(y)) => *x == *y,
            (KeyInput::Code(x), KeyInput::Code(y)) => x.equals(y),
            _ => false,
        }
    }

    /// Whether two key inputs are the same member of a hashed set.
    pub fn same(&self, other: &KeyInput) -> (same: bool)
        ensures
            same == keyinput_same(*self, *other),
    {
        match (self, other) {
            (KeyInput::Key(x), KeyInput::Key(y)) => *x == *y,
            (KeyInput::Code(x), KeyInput::Code(y)) => x.same(y),
            _ => false,
        }
    }
}

impl PartialEq for KeyInput {
    fn eq(&self, other: &Self) -> (equal: bool) {
        self.equals(other)
    }
}

impl PartialEqSpecImpl for KeyInput {
    open spec fn obeys_eq_spec() -> bool {
        true
    }

    open spec fn eq_spec(&self, other: &Self) -> bool {
        keyinput_eq(*self, *other)
    }
}

impl Eq for KeyInput {}

impl From<Key> for KeyInput {
    fn from(k: Key) -> (input: KeyInput) {
        KeyInput::Key(k)
    }
}

impl FromSpecImpl<Key> for KeyInput {
    open spec fn obeys_from_spec() -> bool {
        true
    }

    open spec fn from_spec(k: Key) -> KeyInput {
        KeyInput::Key(k)
    }
}

impl From<KeyCode> for KeyInput {
    fn from(c: KeyCode) -> (input: KeyInput) {
        KeyInput::Code(c)
    }
}

impl FromSpecImpl<KeyCode> for KeyInput {
    open spec fn obeys_from_spec() -> bool {
        true
    }

    open spec fn from_spec(c: KeyCode) -> KeyInput {
        KeyInput::Code(c)
    }
}

impl From<Key> for Pressable {
    fn from(k: Key) -> (p: Pressable) {
        Pressable::Key(k)
    }
}

impl FromSpecImpl<Key> for Pressable {
    open spec fn obeys_from_spec() -> bool {
        true
    }

    open spec fn from_spec(k: Key) -> Pressable {
        Pressable::Key(k)
    }
}

impl From<KeyCode> for Pressable {
    fn from(c: KeyCode) -> (p: Pressable) {
        Pressable::Code(c)
    }
}

impl FromSpecImpl<KeyCode> for Pressable {
    open spec fn obeys_from_spec() -> bool {
        true
    }

    open spec fn from_spec(c: KeyCode) -> Pressable {
        Pressable::Code(c)
    }
}

impl From<char> for Pressable {
    fn from(c: char) -> (p: Pressable) {
        Pressable::Char(c)
    }
}

impl FromSpecImpl<char> for Pressable {
    open spec fn obeys_from_spec() -> bool {
        true
    }

    open spec fn from_spec(c: char) -> Pressable {
        Pressable::Char(c)
    }
}

/// Being the same set member is an equivalence on key inputs, and implies
/// equality.
pub proof fn lemma_keyinput_same_equivalence(a: KeyInput, b: KeyInput, c: KeyInput)
    ensures
        keyinput_same(a, a),
        keyinput_same(a, b) == keyinput_same(b, a),
        keyinput_same(a, b) && keyinput_same(b, c) ==> keyinput_same(a, c),
        keyinput_same(a, b) ==> keyinput_eq(a, b),
{
}

} // verus!
