// Tests of the platform tables and the backend logic, checked against the
// constants of the platform crates where they define them.

use pynput::keyboard::xorg::{send_plan, XorgSend};
use pynput::keyboard::{uinput as kuinput, win32 as kwin32, xorg as kxorg};
use pynput::keyboard::{Key, KeyCode, KeyInput, KeyboardBackend};
use pynput::mouse::{darwin as mdarwin, uinput as muinput, win32 as mwin32, xorg as mxorg, Button, PointerEvent};
use pynput::util::xorg::{free_keycode, keysym_to_keycode, parse_events_in, RecordedEvent};
use pynput::util::use_uinput;
use pynput::Error;
use windows::Win32::UI::Input::KeyboardAndMouse as kam;
use windows::Win32::UI::WindowsAndMessaging as wam;

#[test]
fn evdev_key_codes_match_the_evdev_crate() {
    assert_eq!(kuinput::evdev_key(Key::Enter), evdev::Key::KEY_ENTER.code());
    assert_eq!(kuinput::evdev_key(Key::F13), evdev::Key::KEY_F13.code());
    assert_eq!(kuinput::evdev_key(Key::F20), evdev::Key::KEY_F20.code());
    assert_eq!(kuinput::evdev_key(Key::AltR), evdev::Key::KEY_RIGHTALT.code());
    assert_eq!(kuinput::evdev_key(Key::CmdL), evdev::Key::KEY_LEFTMETA.code());
    assert_eq!(kuinput::LEFT_SHIFT, evdev::Key::KEY_LEFTSHIFT.code());
    assert_eq!(muinput::BTN_LEFT, evdev::Key::BTN_LEFT.code());
    assert_eq!(muinput::BTN_RIGHT, evdev::Key::BTN_RIGHT.code());
    assert_eq!(muinput::BTN_MIDDLE, evdev::Key::BTN_MIDDLE.code());
    assert_eq!(muinput::REL_WHEEL, evdev::RelativeAxisType::REL_WHEEL.0);
    assert_eq!(muinput::REL_HWHEEL, evdev::RelativeAxisType::REL_HWHEEL.0);
    assert_eq!(muinput::REL_X, evdev::RelativeAxisType::REL_X.0);
    assert_eq!(muinput::REL_Y, evdev::RelativeAxisType::REL_Y.0);
}

#[test]
fn windows_constants_match_the_windows_crate() {
    assert_eq!(mwin32::WM_MOUSEWHEEL, wam::WM_MOUSEWHEEL);
    assert_eq!(mwin32::WM_MOUSEHWHEEL, wam::WM_MOUSEHWHEEL);
    assert_eq!(mwin32::WM_MBUTTONUP, wam::WM_MBUTTONUP);
    assert_eq!(kwin32::WM_SYSKEYDOWN, wam::WM_SYSKEYDOWN);
    assert_eq!(mwin32::MOUSEEVENTF_WHEEL, kam::MOUSEEVENTF_WHEEL.0);
    assert_eq!(mwin32::MOUSEEVENTF_HWHEEL, kam::MOUSEEVENTF_HWHEEL.0);
    assert_eq!(mwin32::button_input(Button::Left, true).unwrap(), kam::MOUSEEVENTF_LEFTDOWN.0);
    assert_eq!(mwin32::button_input(Button::Middle, false).unwrap(), kam::MOUSEEVENTF_MIDDLEUP.0);
    assert_eq!(kwin32::vk(Key::Shift), kam::VK_LSHIFT.0);
    assert_eq!(kwin32::vk(Key::Enter), kam::VK_RETURN.0);
}

#[test]
fn backend_key_values() {
    assert_eq!(KeyboardBackend::Uinput.key_value(Key::Esc).vk, Some(1));
    assert_eq!(KeyboardBackend::Unsupported.key_value(Key::Esc).vk, Some(0));
    let enter = KeyboardBackend::Xorg.key_value(Key::Enter);
    assert_eq!(enter.vk, Some(0xFF0D));
    assert_eq!(enter.symbol, Some("Return"));
    assert_eq!(KeyboardBackend::Xorg.key_value(Key::Space).char, Some(' '));
}

#[test]
fn uinput_key_events() {
    let upper = kuinput::key_events(&KeyCode::from_char('A'), true).unwrap();
    assert_eq!(upper, vec![(42, 1), (30, 1)]);
    let upper_up = kuinput::key_events(&KeyCode::from_char('A'), false).unwrap();
    assert_eq!(upper_up, vec![(30, 0), (42, 0)]);
    assert_eq!(kuinput::key_events(&KeyCode::from_vk(0x1_0005), true).unwrap(), vec![(5, 1)]);
    match kuinput::key_events(&KeyCode::from_char('é'), true) {
        Err(Error::InvalidKey(m)) => assert_eq!(m, "'é'"),
        _ => panic!("an unknown character was accepted"),
    }
    let empty = KeyCode { vk: None, char: None, is_dead: false, combining: None, symbol: None };
    match kuinput::key_events(&empty, true) {
        Err(Error::InvalidKey(m)) => assert_eq!(m, "<0>"),
        _ => panic!("a key code without a key was accepted"),
    }
    assert_eq!(kuinput::key_action(1), Some(true));
    assert_eq!(kuinput::key_action(0), Some(false));
    assert_eq!(kuinput::key_action(2), None);
}

#[test]
fn win32_key_inputs() {
    assert_eq!(kwin32::key_inputs(&KeyCode::from_vk(0x41)).unwrap(), vec![(0x41, 0, false)]);
    assert_eq!(kwin32::key_inputs(&KeyCode::from_char('é')).unwrap(), vec![(0, 0xE9, true)]);
    assert_eq!(
        kwin32::key_inputs(&KeyCode::from_char('\u{1F600}')).unwrap(),
        vec![(0, 0xD83D, true), (0, 0xDE00, true)]
    );
    assert_eq!(kwin32::hook_action(0x0104), Some(true));
    assert_eq!(kwin32::hook_action(0x0101), Some(false));
    assert_eq!(kwin32::hook_action(0x0200), None);
    assert!(kwin32::is_injected(0x10));
    assert!(!kwin32::is_injected(0x01));
}

#[test]
fn xorg_mouse_buttons_and_bounds() {
    assert_eq!(mxorg::button_value(Button::Right), 3);
    assert_eq!(mxorg::button_from_detail(2), Button::Middle);
    assert_eq!(mxorg::button_from_detail(9), Button::Unknown);
    assert_eq!(mxorg::check_bounds(-5).unwrap(), -5);
    match mxorg::check_bounds(40000) {
        Err(Error::Backend(m)) => assert_eq!(m, "value out of bounds: 40000"),
        _ => panic!("an out of bounds value was accepted"),
    }
    match mxorg::check_bounds(-40000) {
        Err(Error::Backend(m)) => assert_eq!(m, "value out of bounds: -40000"),
        _ => panic!("an out of bounds value was accepted"),
    }
}

#[test]
fn xorg_scrolling_by_clicks() {
    assert_eq!(mxorg::scroll_clicks(2, -3), vec![(5, 3), (7, 2)]);
    assert_eq!(mxorg::scroll_clicks(-1, 0), vec![(6, 1)]);
    assert_eq!(mxorg::scroll_clicks(0, 0), vec![]);
    assert_eq!(mxorg::scroll_clicks(0, i32::MIN), vec![(5, 1u32 << 31)]);
}

fn recorded(type_: u8, detail: u8) -> RecordedEvent {
    RecordedEvent { type_, detail, root_x: 10, root_y: -4, state: 0, injected: false }
}

#[test]
fn xorg_pointer_events() {
    assert_eq!(mxorg::pointer_event(&recorded(4, 4)), Some(PointerEvent::Scroll(10, -4, 0, 1)));
    assert_eq!(mxorg::pointer_event(&recorded(4, 6)), Some(PointerEvent::Scroll(10, -4, -1, 0)));
    assert_eq!(mxorg::pointer_event(&recorded(5, 5)), None);
    assert_eq!(
        mxorg::pointer_event(&recorded(4, 1)),
        Some(PointerEvent::Click(10, -4, Button::Left, true))
    );
    assert_eq!(
        mxorg::pointer_event(&recorded(5, 3)),
        Some(PointerEvent::Click(10, -4, Button::Right, false))
    );
    assert_eq!(mxorg::pointer_event(&recorded(6, 0)), Some(PointerEvent::Move(10, -4)));
}

#[test]
fn uinput_mouse_events() {
    assert_eq!(muinput::button_event(Button::Left, true).unwrap(), (0x110, 1));
    assert_eq!(muinput::button_event(Button::Right, false).unwrap(), (0x111, 0));
    match muinput::button_event(Button::Unknown, true) {
        Err(Error::Backend(m)) => assert_eq!(m, "unknown button"),
        _ => panic!("the unknown button was pressed"),
    }
    assert_eq!(muinput::scroll_events(3, -1), vec![(8, -1), (6, 3)]);
    assert_eq!(muinput::motion_events(5, -2), vec![(0, 5), (1, -2)]);
    assert_eq!(muinput::motion_events(0, 0), vec![(0, 0), (1, 0)]);
    assert_eq!(muinput::scroll_events(0, 0), vec![]);
}

#[test]
fn win32_mouse_hook_and_wheel() {
    let up_one_notch = 120u32 << 16;
    let down_one_notch = 0xFF88u32 << 16;
    assert_eq!(mwin32::hook_event(0x020A, 1, 2, up_one_notch), Some(PointerEvent::Scroll(1, 2, 0, 1)));
    assert_eq!(mwin32::hook_event(0x020A, 1, 2, down_one_notch), Some(PointerEvent::Scroll(1, 2, 0, -1)));
    assert_eq!(mwin32::hook_event(0x020E, 1, 2, 60u32 << 16), Some(PointerEvent::Scroll(1, 2, 0, 0)));
    assert_eq!(mwin32::hook_event(0x0204, 1, 2, 0), Some(PointerEvent::Click(1, 2, Button::Right, true)));
    assert_eq!(mwin32::hook_event(0x0200, 1, 2, 0), Some(PointerEvent::Move(1, 2)));
    assert_eq!(mwin32::hook_event(0x0300, 1, 2, 0), None);
    assert_eq!(mwin32::wheel_inputs(1, -2).unwrap(), vec![(-240, 0x0800), (120, 0x1000)]);
    match mwin32::wheel_inputs(0, i32::MAX) {
        Err(Error::Backend(m)) => assert_eq!(m, "scroll amount out of range"),
        _ => panic!("an overflowing scroll was accepted"),
    }
}

#[test]
fn backend_choice() {
    assert!(use_uinput(Some("uinput"), Some("xorg"), None, None));
    assert!(!use_uinput(None, Some("xorg"), Some("wayland-0"), None));
    assert!(use_uinput(None, None, Some("wayland-0"), None));
    assert!(!use_uinput(None, None, Some(""), None));
    assert!(use_uinput(None, None, None, Some("wayland")));
    assert!(!use_uinput(None, Some("other"), None, Some("x11")));
}

#[test]
fn free_keycode_borrows_the_first_empty_row() {
    let raw = vec![vec![0x61, 0x41], vec![0, 0], vec![0, 0]];
    assert_eq!(free_keycode(&raw, 8).unwrap(), 9);
    let full = vec![vec![0x61]];
    match free_keycode(&full, 8) {
        Err(Error::Backend(m)) => assert_eq!(m, "no free keycode to borrow"),
        _ => panic!("a keycode was borrowed from a full mapping"),
    }
    assert_eq!(keysym_to_keycode(&raw, 8, 0x41), Some(8));
    assert_eq!(keysym_to_keycode(&raw, 8, 0x42), None);
}

#[test]
fn recorded_events_are_parsed() {
    let mut data = vec![0u8; 64];
    data[0] = 2; // key press
    data[1] = 38;
    data[20] = 10;
    data[24] = 1;
    data[32] = 6; // motion
    let events = parse_events_in(&data, true);
    assert_eq!(events.len(), 2);
    assert_eq!(events[0].type_, 2);
    assert_eq!(events[0].detail, 38);
    assert_eq!(events[1].type_, 6);
}

#[test]
fn xorg_translator_reads_keys() {
    let t = kxorg::Translator {
        mapping: vec![vec![0x61, 0x41], vec![0xFF0D]],
        min_keycode: 8,
        alt_gr_mask: 0x80,
        numlock_mask: 0x10,
    };
    assert_eq!(t.event_to_key(8, 0), Some(KeyInput::Code(KeyCode::from_char('a'))));
    assert_eq!(t.event_to_key(8, 1), Some(KeyInput::Code(KeyCode::from_char('A'))));
    assert_eq!(t.event_to_key(9, 0), Some(KeyInput::Key(Key::Enter)));
}

#[test]
fn listener_codes_read_back_as_keys_with_the_same_code() {
    for key in Key::all() {
        match kuinput::code_to_keyinput(kuinput::evdev_key(key)) {
            Some(KeyInput::Key(k)) => {
                assert_eq!(kuinput::evdev_key(k), kuinput::evdev_key(key));
                assert!(k.index() <= key.index());
            }
            other => panic!("{:?} read back as {:?}", key, other),
        }
        match kwin32::vk_to_keyinput(kwin32::vk(key) as u32) {
            Some(KeyInput::Key(k)) => assert_eq!(kwin32::vk(k), kwin32::vk(key)),
            other => panic!("{:?} read back as {:?}", key, other),
        }
        let keysym = KeyboardBackend::Xorg.key_value(key).vk.unwrap();
        let special = kxorg::keysym_to_special(keysym).unwrap();
        assert_eq!(KeyboardBackend::Xorg.key_value(special).vk, Some(keysym));
    }
    // Alt and its left variant share a key code; the generic key is found.
    assert_eq!(kuinput::code_to_keyinput(56), Some(KeyInput::Key(Key::Alt)));
}

#[test]
fn mouse_button_numbers_read_back() {
    for button in [Button::Left, Button::Middle, Button::Right] {
        assert_eq!(mxorg::button_from_detail(mxorg::button_value(button)), button);
    }
}

#[test]
fn recorded_events_in_machine_order() {
    let mut data = vec![0u8; 32];
    data[0] = 0x80 | 4; // an injected button press
    data[1] = 1;
    data[20] = 0x34;
    data[21] = 0x12;
    let events = pynput::util::xorg::parse_events(&data);
    assert_eq!(events.len(), 1);
    assert!(events[0].injected);
    assert_eq!(events[0].type_, 4);
    assert_eq!(events[0].root_x, i16::from_ne_bytes([0x34, 0x12]));
}

#[test]
fn error_messages() {
    assert_eq!(Error::InvalidKey("'x'".to_string()).message(), "invalid key: 'x'");
    assert_eq!(Error::InvalidCharacter(3, 'é').message(), "invalid character 'é' at index 3");
    assert_eq!(Error::InvalidString("<x>".to_string()).message(), "invalid string: <x>");
    assert_eq!(Error::Backend("gone".to_string()).message(), "backend error: gone");
}

#[test]
fn xorg_send_plans() {
    let raw = vec![vec![0x61, 0x41], vec![0xFF0D]];
    let enter = KeyboardBackend::Xorg.key_value(Key::Enter);
    assert_eq!(send_plan(&enter, &raw, 8, 0).unwrap(), XorgSend::Key(9));
    assert_eq!(send_plan(&KeyCode::from_char('a'), &raw, 8, 0).unwrap(), XorgSend::Mapped(8, 0));
    assert_eq!(send_plan(&KeyCode::from_char('A'), &raw, 8, 0).unwrap(), XorgSend::Mapped(8, 1));
    assert_eq!(send_plan(&KeyCode::from_char('ß'), &raw, 8, 0).unwrap(), XorgSend::Borrow(0xDF));
    let esc = KeyboardBackend::Xorg.key_value(Key::Esc);
    match send_plan(&esc, &raw, 8, 0) {
        Err(Error::InvalidKey(m)) => assert_eq!(m, "<65307>"),
        _ => panic!("a keysym off the layout was sent"),
    }
}

#[test]
fn win32_input_flags() {
    assert_eq!(kwin32::KEYEVENTF_KEYUP, kam::KEYEVENTF_KEYUP.0);
    assert_eq!(kwin32::KEYEVENTF_UNICODE, kam::KEYEVENTF_UNICODE.0);
    assert_eq!(kwin32::key_flags(true, false), 0x6);
    assert_eq!(kwin32::key_flags(false, true), 0);
    assert!(mwin32::is_injected(0x01));
    assert!(!mwin32::is_injected(0x10));
}

#[test]
fn darwin_tapped_pointer_events() {
    assert_eq!(mdarwin::tap_event(5, 10, 20, 1, 2), Some(PointerEvent::Move(10, 20)));
    assert_eq!(mdarwin::tap_event(1, 3, 4, 0, 0), Some(PointerEvent::Click(3, 4, Button::Left, true)));
    assert_eq!(mdarwin::tap_event(2, 3, 4, 0, 0), Some(PointerEvent::Click(3, 4, Button::Left, false)));
    assert_eq!(mdarwin::tap_event(3, 3, 4, 0, 0), Some(PointerEvent::Click(3, 4, Button::Right, true)));
    assert_eq!(mdarwin::tap_event(4, 3, 4, 0, 0), Some(PointerEvent::Click(3, 4, Button::Right, false)));
    assert_eq!(mdarwin::tap_event(25, 3, 4, 0, 0), Some(PointerEvent::Click(3, 4, Button::Middle, true)));
    assert_eq!(mdarwin::tap_event(26, 3, 4, 0, 0), Some(PointerEvent::Click(3, 4, Button::Middle, false)));
    assert_eq!(mdarwin::tap_event(22, 3, 4, -1, 2), Some(PointerEvent::Scroll(3, 4, -1, 2)));
    assert_eq!(mdarwin::tap_event(10, 3, 4, 0, 0), None);
}
