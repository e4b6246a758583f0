//! The platform independent logic of the *macOS* mouse backend: reading the
//! pointer events that an event tap delivers.

use vstd::prelude::*;

use crate::mouse::{Button, PointerEvent};

verus! {

/// The event type of a left button press.
pub const LEFT_MOUSE_DOWN: u32 = 1;
/// The event type of a left button release.
pub const LEFT_MOUSE_UP: u32 = 2;
/// The event type of a right button press.
pub const RIGHT_MOUSE_DOWN: u32 = 3;
/// The event type of a right button release.
pub const RIGHT_MOUSE_UP: u32 = 4;
/// The event type of pointer motion.
pub const MOUSE_MOVED: u32 = 5;
/// The event type of a scroll wheel movement.
pub const SCROLL_WHEEL: u32 = 22;
/// The event type of a press of another button, taken as the middle one.
pub const OTHER_MOUSE_DOWN: u32 = 25;
/// The event type of a release of another button, taken as the middle one.
pub const OTHER_MOUSE_UP: u32 = 26;

/// What a tapped event of type `event_type` at `(x, y)` reports, if
/// anything: motion, a click, or a scroll by `(dx, dy)`, the amounts of the
/// wheel's second and first axes.
pub open spec fn tap_event_of(event_type: u32, x: i32, y: i32, dx: i32, dy: i32) -> Option<
    PointerEvent,
> {
    if event_type == MOUSE_MOVED {
        Some(PointerEvent::Move(x, y))
    } else if event_type == LEFT_MOUSE_DOWN {
        Some(PointerEvent::Click(x, y, Button::Left, true))
    } else if event_type == LEFT_MOUSE_UP {
        Some(PointerEvent::Click(x, y, Button::Left, false))
    } else if event_type == RIGHT_MOUSE_DOWN {
        Some(PointerEvent::Click(x, y, Button::Right, true))
    } else if event_type == RIGHT_MOUSE_UP {
        Some(PointerEvent::Click(x, y, Button::Right, false))
    } else if event_type == OTHER_MOUSE_DOWN {
        Some(PointerEvent::Click(x, y, Button::Middle, true))
    } else if event_type == OTHER_MOUSE_UP {
        Some(PointerEvent::Click(x, y, Button::Middle, false))
    } else if event_type == SCROLL_WHEEL {
        Some(PointerEvent::Scroll(x, y, dx, dy))
    } else {
        None
    }
}

/// What a tapped pointer event reports, if anything.
pub fn tap_event(event_type: u32, x: i32, y: i32, dx: i32, dy: i32) -> (p: Option<PointerEvent>)
    ensures
        p == tap_event_of(event_type, x, y, dx, dy),
{
    match event_type {
        MOUSE_MOVED => Some(PointerEvent::Move(x, y)),
        LEFT_MOUSE_DOWN => Some(PointerEvent::Click(x, y, Button::Left, true)),
        LEFT_MOUSE_UP => Some(PointerEvent::Click(x, y, Button::Left, false)),
        RIGHT_MOUSE_DOWN => Some(PointerEvent::Click(x, y, Button::Right, true)),
        RIGHT_MOUSE_UP => Some(PointerEvent::Click(x, y, Button::Right, false)),
        OTHER_MOUSE_DOWN => Some(PointerEvent::Click(x, y, Button::Middle, true)),
        OTHER_MOUSE_UP => Some(PointerEvent::Click(x, y, Button::Middle, false)),
        SCROLL_WHEEL => Some(PointerEvent::Scroll(x, y, dx, dy)),
        _ => None,
    }
}

/// The event types of Quartz: 1 and 2 are the left button going down and
/// up, 3 and 4 the right one, 25 and 26 another button, taken as the middle
/// one; 5 is motion and 22 the scroll wheel. Each reports at the pointer.
pub proof fn lemma_tap_events(x: i32, y: i32, dx: i32, dy: i32)
    ensures
        tap_event_of(1, x, y, dx, dy) == Some(PointerEvent::Click(x, y, Button::Left, true)),
        tap_event_of(2, x, y, dx, dy) == Some(PointerEvent::Click(x, y, Button::Left, false)),
        tap_event_of(3, x, y, dx, dy) == Some(PointerEvent::Click(x, y, Button::Right, true)),
        tap_event_of(4, x, y, dx, dy) == Some(PointerEvent::Click(x, y, Button::Right, false)),
        tap_event_of(25, x, y, dx, dy) == Some(PointerEvent::Click(x, y, Button::Middle, true)),
        tap_event_of(26, x, y, dx, dy) == Some(PointerEvent::Click(x, y, Button::Middle, false)),
        tap_event_of(5, x, y, dx, dy) == Some(PointerEvent::Move(x, y)),
        tap_event_of(22, x, y, dx, dy) == Some(PointerEvent::Scroll(x, y, dx, dy)),
        forall|t: u32|
            !(t == 1 || t == 2 || t == 3 || t == 4 || t == 5 || t == 22 || t == 25 || t == 26)
                ==> #[trigger] tap_event_of(t, x, y, dx, dy) is None,
{
}

} // verus!
