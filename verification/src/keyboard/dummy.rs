//! The keyboard backend of a platform that has none.

use vstd::prelude::*;

use crate::keyboard::canonical::KeyboardBackend;
use crate::keyboard::controller::KeyboardImpl;
use crate::keyboard::key::Key;
use crate::keyboard::keycode::KeyCode;
use crate::util::text::owned;
use crate::util::Error;

verus! {

/// The message of every failure of a platform without a backend.
pub open spec fn unsupported_message() -> Seq<char> {
    "this platform is not supported"@
}

/// The failure of every operation on a platform without a backend.
pub fn unsupported() -> (e: Error)
    ensures
        e matches Error::Unsupported(m) && m@ == unsupported_message(),
{
    Error::Unsupported(owned("this platform is not supported"))
}

/// A keyboard backend that can be neither created nor used.
pub struct Keyboard;

impl KeyboardImpl for Keyboard {
    fn create() -> (k: Result<Self, Error>)
        ensures
            k matches Err(Error::Unsupported(m)) && m@ == unsupported_message(),
    {
        Err(unsupported())
    }

    fn backend(&self) -> (b: KeyboardBackend)
        ensures
            b == KeyboardBackend::Unsupported,
    {
        KeyboardBackend::Unsupported
    }

    fn handle(&self, modifiers: &Vec<Key>, key: &KeyCode, is_press: bool) -> (r: Result<(), Error>)
        ensures
            r matches Err(Error::Unsupported(m)) && m@ == unsupported_message(),
    {
        Err(unsupported())
    }
}

} // verus!
