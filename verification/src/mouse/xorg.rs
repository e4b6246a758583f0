//! The platform independent logic of the *Xorg* mouse backend: button
//! numbers, coordinate bounds, scrolling by button clicks, and the reading
//! of recorded pointer events.

use vstd::prelude::*;

use crate::mouse::{Button, PointerEvent};
use crate::util::text::{concat, owned, signed_decimal, signed_decimal_text};
use crate::util::xorg::{RecordedEvent, BUTTON_PRESS, BUTTON_RELEASE};
use crate::util::Error;

verus! {

/// The button that scrolls up.
pub const SCROLL_UP: u8 = 4;
/// The button that scrolls down.
pub const SCROLL_DOWN: u8 = 5;
/// The button that scrolls left.
pub const SCROLL_LEFT: u8 = 6;
/// The button that scrolls right.
pub const SCROLL_RIGHT: u8 = 7;

/// The *X* button number of a button.
pub open spec fn button_number(button: Button) -> u8 {
    match button {
        Button::Left => 1,
        Button::Middle => 2,
        Button::Right => 3,
        Button::Unknown => 0,
    }
}

/// The *X* button number of a button.
pub fn button_value(button: Button) -> (detail: u8)
    ensures
        detail == button_number(button),
{
    match button {
        Button::Left => 1,
        Button::Middle => 2,
        Button::Right => 3,
        Button::Unknown => 0,
    }
}

/// The button of an *X* button number.
pub open spec fn detail_button(detail: u8) -> Button {
    if detail == 1 {
        Button::Left
    } else if detail == 2 {
        Button::Middle
    } else if detail == 3 {
        Button::Right
    } else {
        Button::Unknown
    }
}

/// Maps an *X* button detail back to a [`Button`].
pub fn button_from_detail(detail: u8) -> (button: Button)
    ensures
        button == detail_button(detail),
{
    match detail {
        1 => Button::Left,
        2 => Button::Middle,
        3 => Button::Right,
        _ => Button::Unknown,
    }
}

/// The message of a coordinate that does not fit 16 bits.
pub open spec fn out_of_bounds_message(value: int) -> Seq<char> {
    "value out of bounds: "@ + signed_decimal_text(value)
}

/// A coordinate as the 16 bit value *X* takes, or an error when it does not
/// fit.
pub fn check_bounds(value: i32) -> (r: Result<i16, Error>)
    ensures
        -0x8000 <= value <= 0x7FFF ==> r == Ok::<i16, Error>(value as i16),
        !(-0x8000 <= value <= 0x7FFF) ==> (r matches Err(Error::Backend(m)) && m@
            == out_of_bounds_message(value as int)),
{
    if -0x8000 <= value && value <= 0x7FFF {
        Ok(value as i16)
    } else {
        Err(Error::Backend(concat(owned("value out of bounds: "), signed_decimal(value).as_str())))
    }
}

/// The magnitude of a scroll amount.
pub open spec fn magnitude(v: i32) -> u32 {
    if v < 0 {
        (-(v as int)) as u32
    } else {
        v as u32
    }
}

/// The magnitude of a scroll amount.
fn abs_of(v: i32) -> (m: u32)
    ensures
        m == magnitude(v),
{
    if v < 0 {
        let w: i64 = -(v as i64);
        w as u32
    } else {
        v as u32
    }
}

/// The clicks that scroll by `(dx, dy)`: the vertical ones first, then the
/// horizontal ones, each a button clicked as many times as the amount.
pub open spec fn scroll_plan(dx: i32, dy: i32) -> Seq<(u8, u32)> {
    let vertical = if dy != 0 {
        seq![(
            if dy > 0 {
                SCROLL_UP
            } else {
                SCROLL_DOWN
            },
            magnitude(dy),
        )]
    } else {
        Seq::empty()
    };
    let horizontal = if dx != 0 {
        seq![(
            if dx > 0 {
                SCROLL_RIGHT
            } else {
                SCROLL_LEFT
            },
            magnitude(dx),
        )]
    } else {
        Seq::empty()
    };
    vertical + horizontal
}

/// The button clicks that scroll by `(dx, dy)`, with how many times to
/// click each.
pub fn scroll_clicks(dx: i32, dy: i32) -> (clicks: Vec<(u8, u32)>)
    ensures
        clicks@ == scroll_plan(dx, dy),
{
    let mut clicks: Vec<(u8, u32)> = Vec::new();
    if dy != 0 {
        let button = if dy > 0 {
            SCROLL_UP
        } else {
            SCROLL_DOWN
        };
        clicks.push((button, abs_of(dy)));
    }
    if dx != 0 {
        let button = if dx > 0 {
            SCROLL_RIGHT
        } else {
            SCROLL_LEFT
        };
        clicks.push((button, abs_of(dx)));
    }
    assert(clicks@ =~= scroll_plan(dx, dy));
    clicks
}

/// The scroll direction of a scroll button.
pub open spec fn scroll_direction(detail: u8) -> Option<(i32, i32)> {
    if detail == SCROLL_UP {
        Some((0i32, 1i32))
    } else if detail == SCROLL_DOWN {
        Some((0i32, -1i32))
    } else if detail == SCROLL_RIGHT {
        Some((1i32, 0i32))
    } else if detail == SCROLL_LEFT {
        Some((-1i32, 0i32))
    } else {
        None
    }
}

/// The scroll direction of a scroll button, if it is one.
pub fn scroll_vector(detail: u8) -> (v: Option<(i32, i32)>)
    ensures
        v == scroll_direction(detail),
{
    match detail {
        SCROLL_UP => Some((0, 1)),
        SCROLL_DOWN => Some((0, -1)),
        SCROLL_RIGHT => Some((1, 0)),
        SCROLL_LEFT => Some((-1, 0)),
        _ => None,
    }
}

/// What a recorded pointer event reports: a press of a scroll button
/// scrolls, and its release reports nothing; other button events are
/// clicks; anything else is motion.
pub open spec fn pointer_event_of(event: RecordedEvent) -> Option<PointerEvent> {
    let x = event.root_x as i32;
    let y = event.root_y as i32;
    if event.type_ == BUTTON_PRESS {
        match scroll_direction(event.detail) {
            Some((dx, dy)) => Some(PointerEvent::Scroll(x, y, dx, dy)),
            None => Some(PointerEvent::Click(x, y, detail_button(event.detail), true)),
        }
    } else if event.type_ == BUTTON_RELEASE {
        if scroll_direction(event.detail) is Some {
            None
        } else {
            Some(PointerEvent::Click(x, y, detail_button(event.detail), false))
        }
    } else {
        Some(PointerEvent::Move(x, y))
    }
}

/// What a recorded pointer event reports.
pub fn pointer_event(event: &RecordedEvent) -> (p: Option<PointerEvent>)
    ensures
        p == pointer_event_of(*event),
{
    let x = event.root_x as i32;
    let y = event.root_y as i32;
    if event.type_ == BUTTON_PRESS {
        match scroll_vector(event.detail) {
            Some((dx, dy)) => Some(PointerEvent::Scroll(x, y, dx, dy)),
            None => Some(PointerEvent::Click(x, y, button_from_detail(event.detail), true)),
        }
    } else if event.type_ == BUTTON_RELEASE {
        if scroll_vector(event.detail).is_some() {
            None
        } else {
            Some(PointerEvent::Click(x, y, button_from_detail(event.detail), false))
        }
    } else {
        Some(PointerEvent::Move(x, y))
    }
}

/// The button number of each button reads back as the same button.
pub proof fn lemma_button_roundtrip(button: Button)
    requires
        button != Button::Unknown,
    ensures
        detail_button(button_number(button)) == button,
{
}

/// The *X* buttons: 1 is the left button, 2 the middle one and 3 the right
/// one; a button's number gives the button back.
pub proof fn lemma_button_numbers(b: Button)
    ensures
        button_number(Button::Left) == 1,
        button_number(Button::Middle) == 2,
        button_number(Button::Right) == 3,
        b != Button::Unknown ==> detail_button(button_number(b)) == b,
        detail_button(1) == Button::Left,
        detail_button(2) == Button::Middle,
        detail_button(3) == Button::Right,
{
}

/// The scroll buttons of *X*: 4 scrolls up, 5 down, 6 left and 7 right.
/// Scrolling by `(dx, dy)` clicks, for each axis that moves, the button of
/// its direction as many times as the amount, so that the clicks add up to
/// `(dx, dy)`.
pub proof fn lemma_scroll_buttons(dx: i32, dy: i32)
    ensures
        scroll_direction(4) == Some((0i32, 1i32)),
        scroll_direction(5) == Some((0i32, -1i32)),
        scroll_direction(6) == Some((-1i32, 0i32)),
        scroll_direction(7) == Some((1i32, 0i32)),
        forall|d: u8| d < 4 || d > 7 ==> #[trigger] scroll_direction(d) is None,
        ({
            let plan = scroll_plan(dx, dy);
            &&& forall|i: int|
                0 <= i < plan.len() ==> (#[trigger] scroll_direction(plan[i].0)) is Some
            &&& forall|i: int|
                0 <= i < plan.len() ==> (#[trigger] plan[i]).1 > 0
            &&& plan.len() == (if dx != 0 { 1int } else { 0int }) + (if dy != 0 { 1int } else { 0int })
            &&& dy != 0 ==> plan[0].1 * scroll_direction(plan[0].0).unwrap().1 == dy
                && scroll_direction(plan[0].0).unwrap().0 == 0
            &&& dx != 0 ==> plan[plan.len() - 1].1 * scroll_direction(plan[plan.len() - 1].0).unwrap().0
                == dx && scroll_direction(plan[plan.len() - 1].0).unwrap().1 == 0
        }),
{
    let plan = scroll_plan(dx, dy);
    if dy != 0 {
        assert(plan[0] == (if dy > 0 { SCROLL_UP } else { SCROLL_DOWN }, magnitude(dy)));
    }
    if dx != 0 {
        assert(plan[plan.len() - 1] == (if dx > 0 { SCROLL_RIGHT } else { SCROLL_LEFT }, magnitude(dx)));
    }
}

/// A recorded button press of button 1 to 3 is a click of that button
/// going down and its release one going up, at the pointer; a press of a
/// scroll button scrolls one step in its direction and its release reports
/// nothing; motion reports the pointer position.
pub proof fn lemma_pointer_events(e: RecordedEvent)
    ensures
        e.type_ == 4 && 1 <= e.detail <= 3 ==> pointer_event_of(e) == Some(
            PointerEvent::Click(e.root_x as i32, e.root_y as i32, detail_button(e.detail), true),
        ),
        e.type_ == 5 && 1 <= e.detail <= 3 ==> pointer_event_of(e) == Some(
            PointerEvent::Click(e.root_x as i32, e.root_y as i32, detail_button(e.detail), false),
        ),
        e.type_ == 4 && 4 <= e.detail <= 7 ==> pointer_event_of(e) == Some(
            PointerEvent::Scroll(
                e.root_x as i32,
                e.root_y as i32,
                scroll_direction(e.detail).unwrap().0,
                scroll_direction(e.detail).unwrap().1,
            ),
        ),
        e.type_ == 5 && 4 <= e.detail <= 7 ==> pointer_event_of(e) is None,
        e.type_ == 6 ==> pointer_event_of(e) == Some(
            PointerEvent::Move(e.root_x as i32, e.root_y as i32),
        ),
{
}

} // verus!
