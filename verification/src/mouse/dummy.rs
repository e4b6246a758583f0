//! The mouse backend of a platform that has none.

use vstd::prelude::*;

use crate::keyboard::dummy::{unsupported, unsupported_message};
use crate::mouse::{Button, MouseImpl};
use crate::util::Error;

verus! {

/// A mouse backend that can be neither created nor used.
pub struct Mouse;

impl MouseImpl for Mouse {
    fn create() -> (m: Result<Self, Error>)
        ensures
            m matches Err(Error::Unsupported(s)) && s@ == unsupported_message(),
    {
        Err(unsupported())
    }

    fn position(&self) -> (p: Result<(i32, i32), Error>)
        ensures
            p matches Err(Error::Unsupported(s)) && s@ == unsupported_message(),
    {
        Err(unsupported())
    }

    fn set_position(&self, x: i32, y: i32) -> (r: Result<(), Error>)
        ensures
            r matches Err(Error::Unsupported(s)) && s@ == unsupported_message(),
    {
        Err(unsupported())
    }

    fn relative_only(&self) -> (b: bool)
        ensures
            !b,
    {
        false
    }

    fn move_by(&self, dx: i32, dy: i32) -> (r: Result<(), Error>)
        ensures
            r matches Err(Error::Unsupported(s)) && s@ == unsupported_message(),
    {
        Err(unsupported())
    }

    fn scroll(&self, dx: i32, dy: i32) -> (r: Result<(), Error>)
        ensures
            r matches Err(Error::Unsupported(s)) && s@ == unsupported_message(),
    {
        Err(unsupported())
    }

    fn press(&self, button: Button) -> (r: Result<(), Error>)
        ensures
            r matches Err(Error::Unsupported(s)) && s@ == unsupported_message(),
    {
        Err(unsupported())
    }

    fn release(&self, button: Button) -> (r: Result<(), Error>)
        ensures
            r matches Err(Error::Unsupported(s)) && s@ == unsupported_message(),
    {
        Err(unsupported())
    }
}

} // verus!
