// Tests of the keyboard and mouse controllers over recording backends.

use std::cell::RefCell;
use std::rc::Rc;

use pynput::keyboard::{Controller, Key, KeyCode, KeyboardBackend, KeyboardImpl, Pressable};
use pynput::mouse::{Button, Controller as MouseController, MouseImpl};
use pynput::Error;

/// A keyboard backend that records what it is handed and refuses the
/// characters it is told to.
struct Recorder {
    backend: KeyboardBackend,
    refused: Vec<char>,
    sent: Rc<RefCell<Vec<(Vec<Key>, KeyCode, bool)>>>,
}

type Sent = Rc<RefCell<Vec<(Vec<Key>, KeyCode, bool)>>>;

impl Recorder {
    fn new(backend: KeyboardBackend, refused: &[char]) -> Recorder {
        Recorder { backend, refused: refused.to_vec(), sent: Rc::new(RefCell::new(Vec::new())) }
    }
}

impl KeyboardImpl for Recorder {
    fn create() -> Result<Self, Error> {
        Ok(Recorder::new(KeyboardBackend::Uinput, &[]))
    }

    fn backend(&self) -> KeyboardBackend {
        self.backend
    }

    fn handle(&self, modifiers: &Vec<Key>, key: &KeyCode, is_press: bool) -> Result<(), Error> {
        self.sent.borrow_mut().push((modifiers.clone(), *key, is_press));
        match key.char {
            Some(c) if self.refused.contains(&c) => Err(Error::InvalidKey(format!("{:?}", c))),
            _ => Ok(()),
        }
    }
}

fn controller(backend: KeyboardBackend, refused: &[char]) -> (Controller<Recorder>, Sent) {
    let imp = Recorder::new(backend, refused);
    let sent = Rc::clone(&imp.sent);
    (Controller::with_backend(imp), sent)
}

fn events(sent: &Sent) -> Vec<(Option<char>, Option<u32>, bool)> {
    sent.borrow().iter().map(|(_, k, p)| (k.char, k.vk, *p)).collect()
}

#[test]
fn type_str_taps_each_character() {
    let (mut c, log) = controller(KeyboardBackend::Uinput, &[]);
    c.type_str("ab").unwrap();
    assert_eq!(
        events(&log),
        vec![(Some('a'), None, true), (Some('a'), None, false), (Some('b'), None, true), (Some('b'), None, false)]
    );
}

#[test]
fn type_str_line_break_and_tab() {
    let (mut c, log) = controller(KeyboardBackend::Uinput, &[]);
    c.type_str("\n\t").unwrap();
    // KEY_ENTER is 28 and KEY_TAB is 15 in the evdev table.
    assert_eq!(
        events(&log),
        vec![(None, Some(28), true), (None, Some(28), false), (None, Some(15), true), (None, Some(15), false)]
    );
}

#[test]
fn type_str_reports_the_failing_character() {
    let (mut c, log) = controller(KeyboardBackend::Uinput, &['x']);
    let r = c.type_str("axb");
    assert!(matches!(r, Err(Error::InvalidCharacter(1, 'x'))));
    // Typing stops at the refused press.
    assert_eq!(events(&log).len(), 3);
}

#[test]
fn shift_is_tracked_and_reported() {
    let (mut c, log) = controller(KeyboardBackend::Xorg, &[]);
    assert!(!c.shift_pressed());
    c.press(Pressable::Key(Key::ShiftL)).unwrap();
    assert!(c.shift_pressed());
    assert_eq!(c.modifiers(), vec![Key::Shift]);
    // The modifiers handed to the backend include shift while it is held.
    c.press(Pressable::Char('a')).unwrap();
    assert_eq!(log.borrow()[1].0, vec![Key::Shift]);
    c.release(Pressable::Key(Key::ShiftL)).unwrap();
    assert!(!c.shift_pressed());
    assert!(c.modifiers().is_empty());
}

#[test]
fn modifier_queries() {
    let (mut c, log) = controller(KeyboardBackend::Xorg, &[]);
    c.press(Pressable::Key(Key::CtrlL)).unwrap();
    c.press(Pressable::Key(Key::Alt)).unwrap();
    assert!(c.ctrl_pressed());
    assert!(c.alt_pressed());
    assert!(!c.alt_gr_pressed());
    c.press(Pressable::Key(Key::AltGr)).unwrap();
    assert!(c.alt_gr_pressed());
    assert_eq!(c.modifiers(), vec![Key::Ctrl, Key::Alt, Key::AltGr]);
}

#[test]
fn shift_puts_key_code_characters_in_upper_case() {
    let (mut c, log) = controller(KeyboardBackend::Uinput, &[]);
    c.press(Pressable::Key(Key::Shift)).unwrap();
    c.press(Pressable::Code(KeyCode::from_char('a'))).unwrap();
    assert_eq!(events(&log)[1], (Some('A'), None, true));
    // A plain character is sent as it is.
    c.press(Pressable::Char('b')).unwrap();
    assert_eq!(events(&log)[2], (Some('b'), None, true));
}

#[test]
fn caps_lock_toggles() {
    let (mut c, log) = controller(KeyboardBackend::Win32, &[]);
    c.tap(Pressable::Key(Key::CapsLock)).unwrap();
    assert!(c.shift_pressed());
    c.tap(Pressable::Key(Key::CapsLock)).unwrap();
    assert!(!c.shift_pressed());
}

#[test]
fn caps_lock_is_no_modifier_on_any_backend() {
    for backend in [KeyboardBackend::Xorg, KeyboardBackend::Uinput, KeyboardBackend::Win32, KeyboardBackend::Darwin] {
        let (mut c, _log) = controller(backend, &[]);
        c.press(Pressable::Key(Key::CapsLock)).unwrap();
        assert!(c.shift_pressed());
        assert!(c.modifiers().is_empty());
        c.release(Pressable::Key(Key::CapsLock)).unwrap();
        assert!(c.shift_pressed());
        assert!(c.modifiers().is_empty());
        c.press(Pressable::Key(Key::CapsLock)).unwrap();
        assert!(!c.shift_pressed());
        c.press(Pressable::Key(Key::ShiftL)).unwrap();
        assert_eq!(c.modifiers(), vec![Key::Shift]);
        c.release(Pressable::Key(Key::ShiftL)).unwrap();
        assert!(c.modifiers().is_empty());
        assert!(!c.shift_pressed());
    }
}

#[test]
fn modifiers_follow_the_last_call_of_each_key() {
    let (mut c, _log) = controller(KeyboardBackend::Uinput, &['x']);
    c.assert_invariant();
    c.press(Pressable::Key(Key::ShiftL)).unwrap();
    c.press(Pressable::Key(Key::CtrlL)).unwrap();
    // A refused key changes no modifier.
    assert!(c.press(Pressable::Char('x')).is_err());
    c.release(Pressable::Key(Key::ShiftL)).unwrap();
    assert_eq!(c.modifiers(), vec![Key::Ctrl]);
    c.press(Pressable::Key(Key::ShiftR)).unwrap();
    assert_eq!(c.modifiers(), vec![Key::Ctrl, Key::Shift]);
    c.release(Pressable::Key(Key::CtrlL)).unwrap();
    c.release(Pressable::Key(Key::AltL)).unwrap();
    assert_eq!(c.modifiers(), vec![Key::Shift]);
    c.assert_invariant();
}

#[test]
fn dead_key_is_held_back_and_joined() {
    let (mut c, log) = controller(KeyboardBackend::Uinput, &[]);
    let tilde = KeyCode::from_dead('~').unwrap();
    c.press(Pressable::Code(tilde)).unwrap();
    c.release(Pressable::Code(tilde)).unwrap();
    assert!(events(&log).is_empty());
    c.press(Pressable::Char('a')).unwrap();
    assert_eq!(events(&log), vec![(Some('ã'), None, true)]);
}

#[test]
fn dead_key_that_cannot_join_is_sent_alone() {
    let (mut c, log) = controller(KeyboardBackend::Uinput, &[]);
    let tilde = KeyCode::from_dead('~').unwrap();
    c.press(Pressable::Code(tilde)).unwrap();
    c.press(Pressable::Char('q')).unwrap();
    assert_eq!(
        events(&log),
        vec![(Some('~'), None, true), (Some('~'), None, false), (Some('q'), None, true)]
    );
}

#[test]
fn refused_joined_key_falls_back() {
    let (mut c, log) = controller(KeyboardBackend::Uinput, &['ã']);
    let tilde = KeyCode::from_dead('~').unwrap();
    c.press(Pressable::Code(tilde)).unwrap();
    c.press(Pressable::Char('a')).unwrap();
    assert_eq!(
        events(&log),
        vec![
            (Some('ã'), None, true),
            (Some('~'), None, true),
            (Some('~'), None, false),
            (Some('a'), None, true),
        ]
    );
}

#[test]
fn refused_key_is_an_error() {
    let (mut c, log) = controller(KeyboardBackend::Uinput, &['z']);
    assert!(matches!(c.press(Pressable::Char('z')), Err(Error::InvalidKey(_))));
    assert!(matches!(c.touch(Pressable::Char('z'), false), Err(Error::InvalidKey(_))));
}

#[test]
fn pressed_holds_keys_around_the_call() {
    let (mut c, log) = controller(KeyboardBackend::Uinput, &[]);
    let seen = Rc::clone(&log);
    let r = c.pressed(&[Pressable::Key(Key::Ctrl), Pressable::Char('c')], |_events| {
        // Both keys are pressed, and none released yet, when the closure runs.
        assert_eq!(seen.borrow().len(), 2);
        assert!(seen.borrow().iter().all(|(_, _, is_press)| *is_press));
        7
    });
    assert_eq!(r.unwrap(), 7);
    // KEY_LEFTCTRL is 29 in the evdev table.
    assert_eq!(
        events(&log),
        vec![(None, Some(29), true), (Some('c'), None, true), (Some('c'), None, false), (None, Some(29), false)]
    );
    assert!(!c.ctrl_pressed());
}

#[test]
fn pressed_stops_at_a_failed_press() {
    let (mut c, log) = controller(KeyboardBackend::Uinput, &['c']);
    let mut called = false;
    let r = c.pressed(&[Pressable::Char('c')], |_events| called = true);
    assert!(r.is_err());
    assert!(!called);
}

/// A mouse backend with a pointer position, that records its calls.
struct FakeMouse {
    position: RefCell<(i32, i32)>,
    fail_release: bool,
    relative: bool,
    calls: Rc<RefCell<Vec<String>>>,
}

impl FakeMouse {
    fn at(x: i32, y: i32) -> FakeMouse {
        FakeMouse {
            position: RefCell::new((x, y)),
            fail_release: false,
            relative: false,
            calls: Rc::new(RefCell::new(Vec::new())),
        }
    }
}

impl MouseImpl for FakeMouse {
    fn create() -> Result<Self, Error> {
        Ok(FakeMouse::at(0, 0))
    }
    fn position(&self) -> Result<(i32, i32), Error> {
        self.calls.borrow_mut().push("position".to_string());
        Ok(*self.position.borrow())
    }
    fn set_position(&self, x: i32, y: i32) -> Result<(), Error> {
        self.calls.borrow_mut().push(format!("set {} {}", x, y));
        *self.position.borrow_mut() = (x, y);
        Ok(())
    }
    fn relative_only(&self) -> bool {
        self.relative
    }
    fn move_by(&self, dx: i32, dy: i32) -> Result<(), Error> {
        self.calls.borrow_mut().push(format!("move {} {}", dx, dy));
        Ok(())
    }
    fn scroll(&self, dx: i32, dy: i32) -> Result<(), Error> {
        self.calls.borrow_mut().push(format!("scroll {} {}", dx, dy));
        Ok(())
    }
    fn press(&self, button: Button) -> Result<(), Error> {
        self.calls.borrow_mut().push(format!("press {:?}", button));
        Ok(())
    }
    fn release(&self, button: Button) -> Result<(), Error> {
        self.calls.borrow_mut().push(format!("release {:?}", button));
        if self.fail_release {
            Err(Error::Backend("release failed".to_string()))
        } else {
            Ok(())
        }
    }
}

#[test]
fn move_rel_moves_from_the_current_position() {
    let fake = FakeMouse::at(10, 20);
    let calls = Rc::clone(&fake.calls);
    let mut m = MouseController::with_backend(fake);
    m.move_rel(5, -7).unwrap();
    assert_eq!(m.position().unwrap(), (15, 13));
    assert_eq!(calls.borrow()[..2], ["position".to_string(), "set 15 13".to_string()]);
}

#[test]
fn move_rel_on_a_relative_backend() {
    let mut fake = FakeMouse::at(i32::MAX, 0);
    fake.relative = true;
    let calls = Rc::clone(&fake.calls);
    let mut m = MouseController::with_backend(fake);
    m.move_rel(3, -4).unwrap();
    m.move_rel(1, 0).unwrap();
    assert_eq!(*calls.borrow(), vec!["move 3 -4", "move 1 0"]);
}

#[test]
fn move_rel_out_of_range_is_refused() {
    let fake = FakeMouse::at(i32::MAX, 0);
    let calls = Rc::clone(&fake.calls);
    let mut m = MouseController::with_backend(fake);
    let r = m.move_rel(1, 0);
    match r {
        Err(e) => assert_eq!(e.message(), "backend error: pointer position out of range"),
        Ok(()) => panic!("moved past the range"),
    }
    assert_eq!(calls.borrow().len(), 1);
}

#[test]
fn click_presses_and_releases_count_times() {
    let fake = FakeMouse::at(0, 0);
    let calls = Rc::clone(&fake.calls);
    let mut m = MouseController::with_backend(fake);
    m.click(Button::Left, 2).unwrap();
    assert_eq!(
        *calls.borrow(),
        vec!["press Left", "release Left", "press Left", "release Left"]
    );
    m.click(Button::Right, 0).unwrap();
    assert_eq!(calls.borrow().len(), 4);
}

#[test]
fn click_stops_at_the_first_failure() {
    let mut fake = FakeMouse::at(0, 0);
    fake.fail_release = true;
    let calls = Rc::clone(&fake.calls);
    let mut m = MouseController::with_backend(fake);
    assert!(m.click(Button::Middle, 3).is_err());
    assert_eq!(*calls.borrow(), vec!["press Middle", "release Middle"]);
}

#[test]
fn scroll_press_release_forward() {
    let fake = FakeMouse::at(0, 0);
    let calls = Rc::clone(&fake.calls);
    let mut m = MouseController::with_backend(fake);
    m.scroll(1, -2).unwrap();
    m.press(Button::Right).unwrap();
    m.release(Button::Right).unwrap();
    m.set_position(3, 4).unwrap();
    assert_eq!(
        *calls.borrow(),
        vec!["scroll 1 -2", "press Right", "release Right", "set 3 4"]
    );
}

#[test]
fn unsupported_platform_backends_fail() {
    let k = Controller::<pynput::keyboard::dummy::Keyboard>::new();
    assert!(matches!(k, Err(Error::Unsupported(_))));
    let m = MouseController::<pynput::mouse::dummy::Mouse>::new();
    match m {
        Err(e) => assert_eq!(e.message(), "unsupported platform: this platform is not supported"),
        Ok(_) => panic!("created a mouse without a backend"),
    }
}

#[test]
fn both_shift_keys_report_shift_once() {
    let (mut c, _log) = controller(KeyboardBackend::Uinput, &[]);
    c.press(Pressable::Key(Key::ShiftL)).unwrap();
    c.press(Pressable::Key(Key::ShiftR)).unwrap();
    assert_eq!(c.modifiers(), vec![Key::Shift]);
    c.release(Pressable::Key(Key::ShiftL)).unwrap();
    assert!(c.shift_pressed());
    c.release(Pressable::Key(Key::ShiftR)).unwrap();
    assert!(!c.shift_pressed());
}

#[test]
fn pressing_a_held_modifier_again_keeps_it_once() {
    let (mut c, _log) = controller(KeyboardBackend::Xorg, &[]);
    c.press(Pressable::Key(Key::Ctrl)).unwrap();
    c.press(Pressable::Key(Key::Ctrl)).unwrap();
    c.release(Pressable::Key(Key::Ctrl)).unwrap();
    assert!(!c.ctrl_pressed());
}

#[test]
fn dead_key_code_without_character() {
    let (mut c, log) = controller(KeyboardBackend::Uinput, &[]);
    let odd = KeyCode { vk: Some(5), char: None, is_dead: true, combining: None, symbol: None };
    c.press(Pressable::Code(odd)).unwrap();
    c.release(Pressable::Code(odd)).unwrap();
    assert!(events(&log).is_empty());
    c.press(Pressable::Char('a')).unwrap();
    assert_eq!(
        events(&log),
        vec![(None, Some(5), true), (None, Some(5), false), (Some('a'), None, true)]
    );
}
