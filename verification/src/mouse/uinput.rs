//! The platform independent logic of the *uinput*/*evdev* mouse backend:
//! the button key codes and the relative axis events that move the pointer
//! and scroll.

use vstd::prelude::*;

use crate::mouse::Button;
use crate::util::text::owned;
use crate::util::Error;

verus! {

/// The *evdev* key code of the left button.
pub const BTN_LEFT: u16 = 0x110;
/// The *evdev* key code of the right button.
pub const BTN_RIGHT: u16 = 0x111;
/// The *evdev* key code of the middle button.
pub const BTN_MIDDLE: u16 = 0x112;
/// The horizontal motion axis.
pub const REL_X: u16 = 0x00;
/// The vertical motion axis.
pub const REL_Y: u16 = 0x01;
/// The horizontal scroll wheel axis.
pub const REL_HWHEEL: u16 = 0x06;
/// The vertical scroll wheel axis.
pub const REL_WHEEL: u16 = 0x08;

/// The *evdev* key code of a button, if it has one.
pub open spec fn button_code(button: Button) -> Option<u16> {
    match button {
        Button::Left => Some(BTN_LEFT),
        Button::Middle => Some(BTN_MIDDLE),
        Button::Right => Some(BTN_RIGHT),
        Button::Unknown => None,
    }
}

/// The *evdev* key code of a button, if it has one.
pub fn button_key(button: Button) -> (code: Option<u16>)
    ensures
        code == button_code(button),
{
    match button {
        Button::Left => Some(BTN_LEFT),
        Button::Middle => Some(BTN_MIDDLE),
        Button::Right => Some(BTN_RIGHT),
        Button::Unknown => None,
    }
}

/// The message of a button without a key code.
pub open spec fn unknown_button_message() -> Seq<char> {
    "unknown button"@
}

/// The key event that presses (value 1) or releases (value 0) a button.
pub fn button_event(button: Button, is_press: bool) -> (event: Result<(u16, i32), Error>)
    ensures
        button_code(button) matches Some(code) ==> event == Ok::<(u16, i32), Error>(
            (
                code,
                if is_press {
                    1i32
                } else {
                    0i32
                },
            ),
        ),
        button_code(button) is None ==> (event matches Err(Error::Backend(m)) && m@
            == unknown_button_message()),
{
    match button_key(button) {
        Some(code) => Ok((
            code,
            if is_press {
                1
            } else {
                0
            },
        )),
        None => Err(Error::Backend(owned("unknown button"))),
    }
}

/// The relative axis events that move the pointer by `(dx, dy)`: the
/// horizontal motion, then the vertical one, sent together as one motion.
pub open spec fn motion_axes(dx: i32, dy: i32) -> Seq<(u16, i32)> {
    seq![(REL_X, dx), (REL_Y, dy)]
}

/// The relative axis events that move the pointer by `(dx, dy)`.
pub fn motion_events(dx: i32, dy: i32) -> (events: Vec<(u16, i32)>)
    ensures
        events@ == motion_axes(dx, dy),
{
    let events: Vec<(u16, i32)> = vec![(REL_X, dx), (REL_Y, dy)];
    assert(events@ =~= motion_axes(dx, dy));
    events
}

/// The relative axis events that scroll by `(dx, dy)`: the vertical wheel
/// first, then the horizontal one, each only when it moves.
pub open spec fn scroll_axes(dx: i32, dy: i32) -> Seq<(u16, i32)> {
    (if dy != 0 {
        seq![(REL_WHEEL, dy)]
    } else {
        Seq::empty()
    }) + (if dx != 0 {
        seq![(REL_HWHEEL, dx)]
    } else {
        Seq::empty()
    })
}

/// The relative axis events that scroll by `(dx, dy)`.
pub fn scroll_events(dx: i32, dy: i32) -> (events: Vec<(u16, i32)>)
    ensures
        events@ == scroll_axes(dx, dy),
{
    let mut events: Vec<(u16, i32)> = Vec::new();
    if dy != 0 {
        events.push((REL_WHEEL, dy));
    }
    if dx != 0 {
        events.push((REL_HWHEEL, dx));
    }
    assert(events@ =~= scroll_axes(dx, dy));
    events
}

/// The *evdev* button codes are `BTN_LEFT` (0x110), `BTN_RIGHT` (0x111) and
/// `BTN_MIDDLE` (0x112); a button event presses with value 1 and releases
/// with value 0. Motion sends the horizontal axis (0x00) then the vertical
/// one (0x01); scrolling sends the vertical wheel (0x08) then the
/// horizontal one (0x06), each only when it moves.
pub proof fn lemma_uinput_events(dx: i32, dy: i32)
    ensures
        button_code(Button::Left) == Some(0x110u16),
        button_code(Button::Right) == Some(0x111u16),
        button_code(Button::Middle) == Some(0x112u16),
        button_code(Button::Unknown) is None,
        motion_axes(dx, dy) == seq![(0x00u16, dx), (0x01u16, dy)],
        dx != 0 && dy != 0 ==> scroll_axes(dx, dy) == seq![(0x08u16, dy), (0x06u16, dx)],
        dx == 0 && dy != 0 ==> scroll_axes(dx, dy) == seq![(0x08u16, dy)],
        dx != 0 && dy == 0 ==> scroll_axes(dx, dy) == seq![(0x06u16, dx)],
        dx == 0 && dy == 0 ==> scroll_axes(dx, dy) == Seq::<(u16, i32)>::empty(),
{
    assert(scroll_axes(dx, dy) =~= (if dy != 0 {
        seq![(REL_WHEEL, dy)]
    } else {
        Seq::empty()
    }) + (if dx != 0 {
        seq![(REL_HWHEEL, dx)]
    } else {
        Seq::empty()
    }));
    if dx != 0 && dy != 0 {
        assert(scroll_axes(dx, dy) =~= seq![(0x08u16, dy), (0x06u16, dx)]);
    } else if dy != 0 {
        assert(scroll_axes(dx, dy) =~= seq![(0x08u16, dy)]);
    } else if dx != 0 {
        assert(scroll_axes(dx, dy) =~= seq![(0x06u16, dx)]);
    } else {
        assert(scroll_axes(dx, dy) =~= Seq::<(u16, i32)>::empty());
    }
}

} // verus!
