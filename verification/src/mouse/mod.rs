//! Mouse buttons and the mouse controller, with the platform independent
//! logic of the mouse backends.

pub mod darwin;
pub mod dummy;
pub mod uinput;
pub mod win32;
pub mod xorg;

use vstd::prelude::*;

use crate::util::text::owned;
use crate::util::Error;

verus! {

/// The various mouse buttons.
///
/// The actual values for these items differ between platforms; these are
/// present everywhere.
#[derive(Clone, Copy, Debug, PartialEq, Eq, Hash, Structural)]
pub enum Button {
    /// An unknown button was pressed.
    Unknown,
    /// The left button.
    Left,
    /// The middle button.
    Middle,
    /// The right button.
    Right,
}

/// What a mouse listener reports of one pointer event.
#[derive(Clone, Copy, Debug, PartialEq, Eq, Structural)]
pub enum PointerEvent {
    /// The pointer moved to `(x, y)`.
    Move(i32, i32),
    /// A button was pressed (`true`) or released (`false`) at `(x, y)`.
    Click(i32, i32, Button, bool),
    /// The device scrolled by `(dx, dy)` with the pointer at `(x, y)`.
    Scroll(i32, i32, i32, i32),
}

/// The platform dependent mouse implementation, which emits the events.
pub trait MouseImpl: Sized {
    /// Creates the backend, acquiring any platform resources.
    fn create() -> Result<Self, Error>;

    /// The current position of the pointer.
    fn position(&self) -> Result<(i32, i32), Error>;

    /// Moves the pointer to an absolute position.
    fn set_position(&self, x: i32, y: i32) -> Result<(), Error>;

    /// Whether the backend moves the pointer by relative motion only, with
    /// no absolute positions.
    fn relative_only(&self) -> bool;

    /// Moves the pointer by a relative amount.
    fn move_by(&self, dx: i32, dy: i32) -> Result<(), Error>;

    /// Sends scroll events.
    fn scroll(&self, dx: i32, dy: i32) -> Result<(), Error>;

    /// Presses a button.
    fn press(&self, button: Button) -> Result<(), Error>;

    /// Releases a button.
    fn release(&self, button: Button) -> Result<(), Error>;
}

/// One call made of the backend, with its reply.
pub enum MouseCall {
    Position(Result<(i32, i32), Error>),
    SetPosition(i32, i32, Result<(), Error>),
    MoveBy(i32, i32, Result<(), Error>),
    Scroll(i32, i32, Result<(), Error>),
    Press(Button, Result<(), Error>),
    Release(Button, Result<(), Error>),
}

/// The calls that `log1` holds beyond `log0`.
pub open spec fn new_calls(log0: Seq<MouseCall>, log1: Seq<MouseCall>) -> Seq<MouseCall> {
    log1.skip(log0.len() as int)
}

/// The reply to a call that changes something; a query counts as success.
pub open spec fn call_reply(c: MouseCall) -> Result<(), Error> {
    match c {
        MouseCall::Position(_) => Ok(()),
        MouseCall::SetPosition(_, _, r) => r,
        MouseCall::MoveBy(_, _, r) => r,
        MouseCall::Scroll(_, _, r) => r,
        MouseCall::Press(_, r) => r,
        MouseCall::Release(_, r) => r,
    }
}

/// Whether the `i`-th call of a click of `button` is the press or the
/// release it should be: presses and releases alternate, press first.
pub open spec fn click_call(c: MouseCall, button: Button, i: int) -> bool {
    if i % 2 == 0 {
        c matches MouseCall::Press(b, _) && b == button
    } else {
        c matches MouseCall::Release(b, _) && b == button
    }
}

/// Whether `calls` are what clicking `button` `count` times makes, given
/// the replies, and `result` what it returns: press and release in turn,
/// `count` times, stopping after the first call that fails, whose error is
/// the result.
pub open spec fn click_follows(
    button: Button,
    count: u32,
    calls: Seq<MouseCall>,
    result: Result<(), Error>,
) -> bool {
    &&& calls.len() <= 2 * count
    &&& forall|i: int| 0 <= i < calls.len() ==> click_call(#[trigger] calls[i], button, i)
    &&& forall|i: int| 0 <= i < calls.len() - 1 ==> (#[trigger] call_reply(calls[i])) is Ok
    &&& if calls.len() == 2 * count && (calls.len() == 0 || call_reply(calls.last()) is Ok) {
        result is Ok
    } else {
        calls.len() > 0 && call_reply(calls.last()) is Err && result == call_reply(calls.last())
    }
}

/// The message of a position that does not fit the coordinate type.
pub open spec fn out_of_range_message() -> Seq<char> {
    "pointer position out of range"@
}

/// A controller for sending virtual mouse events to the system.
pub struct Controller<I: MouseImpl> {
    imp: I,
    relative: bool,
    log: Ghost<Seq<MouseCall>>,
}

impl<I: MouseImpl> Controller<I> {
    /// The backend.
    pub closed spec fn imp(&self) -> I {
        self.imp
    }

    /// Every call made of the backend so far, with its reply.
    pub closed spec fn log(&self) -> Seq<MouseCall> {
        self.log@
    }

    /// Whether the backend moves the pointer by relative motion only, as it
    /// said when the controller was made.
    pub closed spec fn relative(&self) -> bool {
        self.relative
    }

    /// Creates a controller from an explicit backend.
    pub fn with_backend(imp: I) -> (c: Self)
        ensures
            c.imp() == imp,
            c.log() == Seq::<MouseCall>::empty(),
    {
        let relative = imp.relative_only();
        Controller { imp, relative, log: Ghost(Seq::empty()) }
    }

    /// Creates a new controller, acquiring the backend.
    pub fn new() -> (c: Result<Self, Error>)
        ensures
            c matches Ok(c) ==> c.log() == Seq::<MouseCall>::empty(),
    {
        match I::create() {
            Ok(imp) => Ok(Self::with_backend(imp)),
            Err(e) => Err(e),
        }
    }

    /// The current position of the mouse pointer as `(x, y)`.
    pub fn position(&mut self) -> (p: Result<(i32, i32), Error>)
        ensures
            final(self).imp() == old(self).imp(),
            final(self).relative() == old(self).relative(),
            final(self).log() == old(self).log().push(MouseCall::Position(p)),
    {
        let p = self.imp.position();
        self.log = Ghost(self.log@.push(MouseCall::Position(p)));
        p
    }

    /// Moves the pointer to an absolute position.
    pub fn set_position(&mut self, x: i32, y: i32) -> (r: Result<(), Error>)
        ensures
            final(self).imp() == old(self).imp(),
            final(self).relative() == old(self).relative(),
            final(self).log() == old(self).log().push(MouseCall::SetPosition(x, y, r)),
    {
        let r = self.imp.set_position(x, y);
        self.log = Ghost(self.log@.push(MouseCall::SetPosition(x, y, r)));
        r
    }

    /// Moves the pointer a number of pixels from its current position.
    ///
    /// A backend that moves the pointer by relative motion only is asked to
    /// move it by `(dx, dy)`. Any other backend is asked for the position,
    /// and then to move the pointer to that position moved by `(dx, dy)`; a
    /// position past the range of the coordinates is refused with
    /// `Error::Backend`.
    pub fn move_rel(&mut self, dx: i32, dy: i32) -> (r: Result<(), Error>)
        ensures
            final(self).imp() == old(self).imp(),
            final(self).relative() == old(self).relative(),
            final(self).log().take(old(self).log().len() as int) == old(self).log(),
            old(self).relative() ==> new_calls(old(self).log(), final(self).log()) == seq![
                MouseCall::MoveBy(dx, dy, r),
            ],
            !old(self).relative() ==> ({
                let calls = new_calls(old(self).log(), final(self).log());
                &&& calls.len() >= 1
                &&& calls[0] is Position
                &&& match calls[0] {
                    MouseCall::Position(Err(e)) => calls.len() == 1 && r == Err::<(), Error>(e),
                    MouseCall::Position(Ok((x, y))) => if i32::MIN <= x + dx <= i32::MAX && i32::MIN
                        <= y + dy <= i32::MAX {
                        calls.len() == 2 && (calls[1] matches MouseCall::SetPosition(nx, ny, reply)
                            && nx == x + dx && ny == y + dy && r == reply)
                    } else {
                        calls.len() == 1 && (r matches Err(Error::Backend(m)) && m@
                            == out_of_range_message())
                    },
                    _ => false,
                }
            }),
    {
        let ghost log0 = self.log@;
        if self.relative {
            let r = self.imp.move_by(dx, dy);
            self.log = Ghost(self.log@.push(MouseCall::MoveBy(dx, dy, r)));
            proof {
                assert(self.log@.take(log0.len() as int) =~= log0);
                assert(new_calls(log0, self.log@) =~= seq![MouseCall::MoveBy(dx, dy, r)]);
            }
            return r;
        }
        let p = self.position();
        match p {
            Ok((x, y)) => {
                let nx = x.checked_add(dx);
                let ny = y.checked_add(dy);
                match (nx, ny) {
                    (Some(nx), Some(ny)) => {
                        let r = self.set_position(nx, ny);
                        proof {
                            assert(self.log@.take(log0.len() as int) =~= log0);
                            assert(new_calls(log0, self.log@) =~= seq![
                                MouseCall::Position(p),
                                MouseCall::SetPosition(nx, ny, r),
                            ]);
                        }
                        r
                    },
                    _ => {
                        proof {
                            assert(self.log@.take(log0.len() as int) =~= log0);
                            assert(new_calls(log0, self.log@) =~= seq![MouseCall::Position(p)]);
                        }
                        Err(Error::Backend(owned("pointer position out of range")))
                    },
                }
            },
            Err(e) => {
                proof {
                    assert(self.log@.take(log0.len() as int) =~= log0);
                    assert(new_calls(log0, self.log@) =~= seq![MouseCall::Position(p)]);
                }
                Err(e)
            },
        }
    }

    /// Sends scroll events. The units of scrolling are undefined.
    pub fn scroll(&mut self, dx: i32, dy: i32) -> (r: Result<(), Error>)
        ensures
            final(self).imp() == old(self).imp(),
            final(self).relative() == old(self).relative(),
            final(self).log() == old(self).log().push(MouseCall::Scroll(dx, dy, r)),
    {
        let r = self.imp.scroll(dx, dy);
        self.log = Ghost(self.log@.push(MouseCall::Scroll(dx, dy, r)));
        r
    }

    /// Emits a button press event at the current position.
    pub fn press(&mut self, button: Button) -> (r: Result<(), Error>)
        ensures
            final(self).imp() == old(self).imp(),
            final(self).relative() == old(self).relative(),
            final(self).log() == old(self).log().push(MouseCall::Press(button, r)),
    {
        let r = self.imp.press(button);
        self.log = Ghost(self.log@.push(MouseCall::Press(button, r)));
        r
    }

    /// Emits a button release event at the current position.
    pub fn release(&mut self, button: Button) -> (r: Result<(), Error>)
        ensures
            final(self).imp() == old(self).imp(),
            final(self).relative() == old(self).relative(),
            final(self).log() == old(self).log().push(MouseCall::Release(button, r)),
    {
        let r = self.imp.release(button);
        self.log = Ghost(self.log@.push(MouseCall::Release(button, r)));
        r
    }

    /// Emits a button click (press then release) event `count` times.
    pub fn click(&mut self, button: Button, count: u32) -> (r: Result<(), Error>)
        ensures
            final(self).imp() == old(self).imp(),
            final(self).log().take(old(self).log().len() as int) == old(self).log(),
            final(self).relative() == old(self).relative(),
            click_follows(button, count, new_calls(old(self).log(), final(self).log()), r),
    {
        let ghost log0 = self.log@;
        let ghost imp0 = self.imp;
        let mut i: u32 = 0;
        while i < count
            invariant
                i <= count,
                log0 == old(self).log(),
                imp0 == old(self).imp(),
                self.imp == imp0,
                self.relative == old(self).relative(),
                self.log@.len() == log0.len() + 2 * i,
                self.log@.take(log0.len() as int) == log0,
                forall|k: int|
                    0 <= k < 2 * i ==> click_call(
                        #[trigger] new_calls(log0, self.log@)[k],
                        button,
                        k,
                    ),
                forall|k: int|
                    0 <= k < 2 * i ==> (#[trigger] call_reply(new_calls(log0, self.log@)[k])) is Ok,
            decreases count - i,
        {
            let ghost before = self.log@;
            let r = self.press(button);
            proof {
                assert forall|k: int| 0 <= k < 2 * i implies new_calls(log0, self.log@)[k]
                    == new_calls(log0, before)[k] by {
                    assert(self.log@[log0.len() + k] == before[log0.len() + k]);
                }
                assert(self.log@.take(log0.len() as int) =~= log0);
            }
            proof {
                let calls = new_calls(log0, self.log@);
                assert(calls[2 * i] == MouseCall::Press(button, r));
                assert((2 * i) % 2 == 0);
                assert forall|k: int| 0 <= k < calls.len() implies click_call(
                    #[trigger] calls[k],
                    button,
                    k,
                ) by {
                    if k < 2 * i {
                        assert(calls[k] == new_calls(log0, before)[k]);
                    }
                }
                assert forall|k: int| 0 <= k < 2 * i implies (#[trigger] call_reply(calls[k])) is Ok by {
                    assert(calls[k] == new_calls(log0, before)[k]);
                }
            }
            if r.is_err() {
                return r;
            }
            let ghost middle = self.log@;
            let r = self.release(button);
            proof {
                assert forall|k: int| 0 <= k < 2 * i + 1 implies new_calls(log0, self.log@)[k]
                    == new_calls(log0, middle)[k] by {
                    assert(self.log@[log0.len() + k] == middle[log0.len() + k]);
                }
                assert(self.log@.take(log0.len() as int) =~= log0);
            }
            proof {
                let calls = new_calls(log0, self.log@);
                assert(calls[2 * i + 1] == MouseCall::Release(button, r));
                assert((2 * i + 1) % 2 == 1);
                assert forall|k: int| 0 <= k < calls.len() implies click_call(
                    #[trigger] calls[k],
                    button,
                    k,
                ) by {
                    if k < 2 * i + 1 {
                        assert(calls[k] == new_calls(log0, middle)[k]);
                    }
                }
                assert forall|k: int| 0 <= k < 2 * i + 1 implies (#[trigger] call_reply(calls[k])) is Ok by {
                    assert(calls[k] == new_calls(log0, middle)[k]);
                }
            }
            if r.is_err() {
                return r;
            }
            i = i + 1;
        }
        Ok(())
    }
}

} // verus!
