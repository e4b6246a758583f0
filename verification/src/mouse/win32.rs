//! The platform independent logic of the *Windows* mouse backend: the input
//! flags of the buttons and the wheels, and the reading of hooked messages.

use vstd::prelude::*;

use crate::mouse::{Button, PointerEvent};
use crate::util::text::owned;
use crate::util::Error;

verus! {

/// The amount of one wheel notch.
pub const WHEEL_DELTA: i32 = 120;
/// The input flag of a vertical wheel movement.
pub const MOUSEEVENTF_WHEEL: u32 = 0x0800;
/// The input flag of a horizontal wheel movement.
pub const MOUSEEVENTF_HWHEEL: u32 = 0x1000;
/// The message of pointer motion.
pub const WM_MOUSEMOVE: u32 = 0x0200;
/// The message of a left button press.
pub const WM_LBUTTONDOWN: u32 = 0x0201;
/// The message of a left button release.
pub const WM_LBUTTONUP: u32 = 0x0202;
/// The message of a right button press.
pub const WM_RBUTTONDOWN: u32 = 0x0204;
/// The message of a right button release.
pub const WM_RBUTTONUP: u32 = 0x0205;
/// The message of a middle button press.
pub const WM_MBUTTONDOWN: u32 = 0x0207;
/// The message of a middle button release.
pub const WM_MBUTTONUP: u32 = 0x0208;
/// The message of a vertical wheel movement.
pub const WM_MOUSEWHEEL: u32 = 0x020A;
/// The message of a horizontal wheel movement.
pub const WM_MOUSEHWHEEL: u32 = 0x020E;

/// The input flag that presses or releases a button, if it has one.
pub open spec fn button_flag(button: Button, is_press: bool) -> Option<u32> {
    match button {
        Button::Left => Some(if is_press { 0x0002u32 } else { 0x0004u32 }),
        Button::Right => Some(if is_press { 0x0008u32 } else { 0x0010u32 }),
        Button::Middle => Some(if is_press { 0x0020u32 } else { 0x0040u32 }),
        Button::Unknown => None,
    }
}

/// The input flag that presses or releases a button; the unknown button
/// has none.
pub fn button_input(button: Button, is_press: bool) -> (flag: Result<u32, Error>)
    ensures
        button_flag(button, is_press) matches Some(f) ==> flag == Ok::<u32, Error>(f),
        button_flag(button, is_press) is None ==> (flag matches Err(Error::Backend(m)) && m@
            == "unknown button"@),
{
    match button {
        Button::Left => Ok(if is_press { 0x0002 } else { 0x0004 }),
        Button::Right => Ok(if is_press { 0x0008 } else { 0x0010 }),
        Button::Middle => Ok(if is_press { 0x0020 } else { 0x0040 }),
        Button::Unknown => Err(Error::Backend(owned("unknown button"))),
    }
}

/// The wheel inputs that scroll by `(dx, dy)`: the wheel data and flag of
/// the vertical wheel first, then of the horizontal one, each only when it
/// moves; `None` when an amount in wheel units does not fit 32 bits.
pub open spec fn wheel_plan(dx: i32, dy: i32) -> Option<Seq<(i32, u32)>> {
    if dy * WHEEL_DELTA < i32::MIN || dy * WHEEL_DELTA > i32::MAX || dx * WHEEL_DELTA < i32::MIN
        || dx * WHEEL_DELTA > i32::MAX {
        None
    } else {
        Some(
            (if dy != 0 {
                seq![((dy * WHEEL_DELTA) as i32, MOUSEEVENTF_WHEEL)]
            } else {
                Seq::empty()
            }) + (if dx != 0 {
                seq![((dx * WHEEL_DELTA) as i32, MOUSEEVENTF_HWHEEL)]
            } else {
                Seq::empty()
            }),
        )
    }
}

/// The wheel inputs that scroll by `(dx, dy)`, or an error when an amount
/// is too large to send.
pub fn wheel_inputs(dx: i32, dy: i32) -> (inputs: Result<Vec<(i32, u32)>, Error>)
    ensures
        wheel_plan(dx, dy) matches Some(plan) ==> (inputs matches Ok(v) && v@ == plan),
        wheel_plan(dx, dy) is None ==> (inputs matches Err(Error::Backend(m)) && m@
            == "scroll amount out of range"@),
{
    let vertical = dy.checked_mul(WHEEL_DELTA);
    let horizontal = dx.checked_mul(WHEEL_DELTA);
    match (vertical, horizontal) {
        (Some(v), Some(h)) => {
            let mut inputs: Vec<(i32, u32)> = Vec::new();
            if dy != 0 {
                inputs.push((v, MOUSEEVENTF_WHEEL));
            }
            if dx != 0 {
                inputs.push((h, MOUSEEVENTF_HWHEEL));
            }
            assert(inputs@ =~= wheel_plan(dx, dy).unwrap());
            Ok(inputs)
        },
        _ => Err(Error::Backend(owned("scroll amount out of range"))),
    }
}

/// The signed wheel amount in the high word of a hooked message's data.
pub open spec fn high_word(mouse_data: u32) -> int {
    let h = mouse_data as int / 0x10000;
    if h >= 0x8000 {
        h - 0x10000
    } else {
        h
    }
}

/// Integer division rounding toward zero.
pub open spec fn div_toward_zero(a: int, b: int) -> int {
    if a >= 0 {
        a / b
    } else {
        -((-a) / b)
    }
}

/// What a hooked pointer message reports, if anything: motion, a click, or
/// a wheel movement of whole notches.
pub open spec fn hook_event_of(message: u32, x: i32, y: i32, mouse_data: u32) -> Option<
    PointerEvent,
> {
    let notches = div_toward_zero(high_word(mouse_data), WHEEL_DELTA as int) as i32;
    if message == WM_MOUSEMOVE {
        Some(PointerEvent::Move(x, y))
    } else if message == WM_LBUTTONDOWN {
        Some(PointerEvent::Click(x, y, Button::Left, true))
    } else if message == WM_LBUTTONUP {
        Some(PointerEvent::Click(x, y, Button::Left, false))
    } else if message == WM_RBUTTONDOWN {
        Some(PointerEvent::Click(x, y, Button::Right, true))
    } else if message == WM_RBUTTONUP {
        Some(PointerEvent::Click(x, y, Button::Right, false))
    } else if message == WM_MBUTTONDOWN {
        Some(PointerEvent::Click(x, y, Button::Middle, true))
    } else if message == WM_MBUTTONUP {
        Some(PointerEvent::Click(x, y, Button::Middle, false))
    } else if message == WM_MOUSEWHEEL {
        Some(PointerEvent::Scroll(x, y, 0, notches))
    } else if message == WM_MOUSEHWHEEL {
        Some(PointerEvent::Scroll(x, y, notches, 0))
    } else {
        None
    }
}

/// The wheel notches in a hooked message's data.
fn wheel_notches(mouse_data: u32) -> (n: i32)
    ensures
        n == div_toward_zero(high_word(mouse_data), WHEEL_DELTA as int),
{
    let h: u32 = mouse_data >> 16;
    assert(mouse_data >> 16 == mouse_data / 0x10000) by (bit_vector);
    let signed: i32 = if h >= 0x8000 {
        (h as i32) - 0x10000
    } else {
        h as i32
    };
    if signed >= 0 {
        signed / WHEEL_DELTA
    } else {
        -((-signed) / WHEEL_DELTA)
    }
}

/// What a hooked pointer message reports, if anything.
pub fn hook_event(message: u32, x: i32, y: i32, mouse_data: u32) -> (p: Option<PointerEvent>)
    ensures
        p == hook_event_of(message, x, y, mouse_data),
{
    let notches = wheel_notches(mouse_data);
    match message {
        WM_MOUSEMOVE => Some(PointerEvent::Move(x, y)),
        WM_LBUTTONDOWN => Some(PointerEvent::Click(x, y, Button::Left, true)),
        WM_LBUTTONUP => Some(PointerEvent::Click(x, y, Button::Left, false)),
        WM_RBUTTONDOWN => Some(PointerEvent::Click(x, y, Button::Right, true)),
        WM_RBUTTONUP => Some(PointerEvent::Click(x, y, Button::Right, false)),
        WM_MBUTTONDOWN => Some(PointerEvent::Click(x, y, Button::Middle, true)),
        WM_MBUTTONUP => Some(PointerEvent::Click(x, y, Button::Middle, false)),
        WM_MOUSEWHEEL => Some(PointerEvent::Scroll(x, y, 0, notches)),
        WM_MOUSEHWHEEL => Some(PointerEvent::Scroll(x, y, notches, 0)),
        _ => None,
    }
}

/// Each button message reports a click of the button it names at the
/// pointer position: the `..DOWN` messages a press, the `..UP` messages a
/// release; the data of the message plays no part.
pub proof fn lemma_hook_clicks(x: i32, y: i32, mouse_data: u32)
    ensures
        hook_event_of(0x0201, x, y, mouse_data) == Some(PointerEvent::Click(x, y, Button::Left, true)),
        hook_event_of(0x0202, x, y, mouse_data) == Some(PointerEvent::Click(x, y, Button::Left, false)),
        hook_event_of(0x0204, x, y, mouse_data) == Some(PointerEvent::Click(x, y, Button::Right, true)),
        hook_event_of(0x0205, x, y, mouse_data) == Some(
            PointerEvent::Click(x, y, Button::Right, false),
        ),
        hook_event_of(0x0207, x, y, mouse_data) == Some(
            PointerEvent::Click(x, y, Button::Middle, true),
        ),
        hook_event_of(0x0208, x, y, mouse_data) == Some(
            PointerEvent::Click(x, y, Button::Middle, false),
        ),
        hook_event_of(0x0200, x, y, mouse_data) == Some(PointerEvent::Move(x, y)),
        forall|m: u32|
            (#[trigger] hook_event_of(m, x, y, mouse_data)) matches Some(PointerEvent::Click(
                cx,
                cy,
                _,
                pressed,
            )) ==> cx == x && cy == y && (pressed <==> (m == 0x0201 || m == 0x0204 || m
                == 0x0207)),
{
}

/// The input flags of the buttons are those of `SendInput`: left down and up
/// `0x0002`, `0x0004`, right `0x0008`, `0x0010`, middle `0x0020`, `0x0040`;
/// no two button movements share a flag, and the unknown button has none.
pub proof fn lemma_button_flags()
    ensures
        button_flag(Button::Left, true) == Some(0x0002u32),
        button_flag(Button::Left, false) == Some(0x0004u32),
        button_flag(Button::Right, true) == Some(0x0008u32),
        button_flag(Button::Right, false) == Some(0x0010u32),
        button_flag(Button::Middle, true) == Some(0x0020u32),
        button_flag(Button::Middle, false) == Some(0x0040u32),
        button_flag(Button::Unknown, true) is None,
        button_flag(Button::Unknown, false) is None,
        forall|b1: Button, p1: bool, b2: Button, p2: bool|
            (#[trigger] button_flag(b1, p1)) is Some && (b1 != b2 || p1 != p2)
                ==> #[trigger] button_flag(b2, p2) != button_flag(b1, p1),
{
}

/// Scrolling sends, for the vertical wheel and then the horizontal one, each
/// only when it moves, the amount in wheel units of 120 per notch with the
/// flag of that wheel (`0x0800` vertical, `0x1000` horizontal); it fails
/// only when such an amount does not fit 32 bits.
pub proof fn lemma_wheel_inputs(dx: i32, dy: i32)
    requires
        -0x1000000 <= dx <= 0x1000000,
        -0x1000000 <= dy <= 0x1000000,
    ensures
        wheel_plan(dx, dy) is Some,
        dy != 0 && dx != 0 ==> wheel_plan(dx, dy) == Some(
            seq![((120 * dy) as i32, 0x0800u32), ((120 * dx) as i32, 0x1000u32)],
        ),
        dy != 0 && dx == 0 ==> wheel_plan(dx, dy) == Some(seq![((120 * dy) as i32, 0x0800u32)]),
        dy == 0 && dx != 0 ==> wheel_plan(dx, dy) == Some(seq![((120 * dx) as i32, 0x1000u32)]),
        dy == 0 && dx == 0 ==> wheel_plan(dx, dy) == Some(Seq::<(i32, u32)>::empty()),
{
    let plan = wheel_plan(dx, dy).unwrap();
    if dy != 0 && dx != 0 {
        assert(plan =~= seq![((120 * dy) as i32, 0x0800u32), ((120 * dx) as i32, 0x1000u32)]);
    } else if dy != 0 {
        assert(plan =~= seq![((120 * dy) as i32, 0x0800u32)]);
    } else if dx != 0 {
        assert(plan =~= seq![((120 * dx) as i32, 0x1000u32)]);
    } else {
        assert(plan =~= Seq::<(i32, u32)>::empty());
    }
}

/// A scroll too large for 32 bits in wheel units is refused.
pub proof fn lemma_wheel_overflow(dx: i32, dy: i32)
    ensures
        120 * (dy as int) > i32::MAX || 120 * (dx as int) > i32::MAX || 120 * (dy as int) < i32::MIN
            || 120 * (dx as int) < i32::MIN ==> wheel_plan(dx, dy) is None,
{
}

/// The vertical wheel message (0x020A) scrolls vertically and the
/// horizontal one (0x020E) horizontally, by whole notches of 120 in the
/// signed high word of the data: one notch forward is one step, one notch
/// back is minus one.
pub proof fn lemma_hook_wheels(x: i32, y: i32, mouse_data: u32)
    ensures
        hook_event_of(0x020A, x, y, mouse_data) matches Some(PointerEvent::Scroll(sx, sy, h, _))
            && sx == x && sy == y && h == 0,
        hook_event_of(0x020E, x, y, mouse_data) matches Some(PointerEvent::Scroll(sx, sy, _, v))
            && sx == x && sy == y && v == 0,
        mouse_data / 0x10000 == 120 ==> hook_event_of(0x020A, x, y, mouse_data) == Some(
            PointerEvent::Scroll(x, y, 0, 1),
        ) && hook_event_of(0x020E, x, y, mouse_data) == Some(PointerEvent::Scroll(x, y, 1, 0)),
        mouse_data / 0x10000 == 0xFF88 ==> hook_event_of(0x020A, x, y, mouse_data) == Some(
            PointerEvent::Scroll(x, y, 0, -1i32),
        ) && hook_event_of(0x020E, x, y, mouse_data) == Some(PointerEvent::Scroll(x, y, -1i32, 0)),
{
}

/// Whether the flags of a hooked pointer message mark it as injected.
pub fn is_injected(flags: u32) -> (injected: bool)
    ensures
        injected == (flags & 0x01 != 0),
{
    flags & 0x01 != 0
}

} // verus!
