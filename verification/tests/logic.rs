// Tests for the platform-independent logic.

use std::collections::hash_map::DefaultHasher;
use std::collections::HashSet;
use std::hash::{Hash, Hasher};

use pynput::keyboard::keycode::HashInput;
use pynput::keyboard::{canonical, HotKey, Key, KeyCode, KeyInput, KeyboardBackend};
use pynput::util::text::{decimal, parse_u32};

#[test]
fn keycode_constructors() {
    let a = KeyCode::from_char('a');
    assert_eq!(a.char, Some('a'));
    assert!(a.vk.is_none());

    let vk = KeyCode::from_vk(0xFF0D);
    assert_eq!(vk.vk, Some(0xFF0D));
    assert!(vk.char.is_none());

    assert_eq!(KeyCode::from_char('a'), KeyCode::from_char('a'));
    assert_ne!(KeyCode::from_char('a'), KeyCode::from_char('b'));
    assert_eq!(KeyCode::from_vk(5), KeyCode::from_vk(5));
}

#[test]
fn keycode_hash_set_membership() {
    let mut set = HashSet::new();
    set.insert(KeyCode::from_char('a'));
    set.insert(KeyCode::from_vk(42));
    assert!(set.contains(&KeyCode::from_char('a')));
    assert!(set.contains(&KeyCode::from_vk(42)));
    assert!(!set.contains(&KeyCode::from_char('z')));
}

#[test]
fn dead_key_join_compose() {
    // '~' is the standalone form of COMBINING TILDE.
    let dead = KeyCode::from_dead('~').expect("tilde is a dead key");
    assert!(dead.is_dead);
    assert!(dead.combining.is_some());

    // Joining with 'a' yields 'ã'.
    let joined = dead.join(&KeyCode::from_char('a')).expect("compose a~");
    assert_eq!(joined.char, Some('ã'));
    assert!(!joined.is_dead);

    // Joining with space yields the non-dead standalone character.
    let space = dead.join(&KeyCode::from_char(' ')).expect("join space");
    assert_eq!(space.char, Some('~'));
    assert!(!space.is_dead);

    // Joining with itself also yields the non-dead form.
    let itself = dead.join(&dead).expect("join self");
    assert_eq!(itself.char, Some('~'));
}

#[test]
fn dead_key_join_invalid() {
    let dead = KeyCode::from_dead('~').unwrap();
    // 'q' has no precomposed tilde form.
    assert!(dead.join(&KeyCode::from_char('q')).is_err());
    // A non-dead key cannot be joined.
    assert!(KeyCode::from_char('a').join(&KeyCode::from_char('b')).is_err());
}

#[test]
fn key_name_roundtrip() {
    for key in Key::all() {
        assert_eq!(Key::from_name(key.name()), Some(key));
    }
    assert_eq!(Key::from_name("ctrl"), Some(Key::Ctrl));
    assert_eq!(Key::from_name("nope"), None);
}

#[test]
fn key_normal_modifier() {
    assert_eq!(Key::ShiftL.normal_modifier(), Some(Key::Shift));
    assert_eq!(Key::ShiftR.normal_modifier(), Some(Key::Shift));
    assert_eq!(Key::Ctrl.normal_modifier(), Some(Key::Ctrl));
    assert_eq!(Key::AltGr.normal_modifier(), Some(Key::AltGr));
    assert_eq!(Key::F1.normal_modifier(), None);
}

#[test]
fn hotkey_parse_basic() {
    let parsed = HotKey::parse("<ctrl>+<alt>+h", KeyboardBackend::Xorg).unwrap();
    assert_eq!(parsed.len(), 3);
    assert_eq!(parsed[0], KeyInput::Key(Key::Ctrl));
    assert_eq!(parsed[1], KeyInput::Key(Key::Alt));
    assert_eq!(parsed[2], KeyInput::Code(KeyCode::from_char('h')));
}

#[test]
fn hotkey_parse_uppercase_normalised() {
    // Single characters are lower-cased.
    let parsed = HotKey::parse("<ctrl>+A", KeyboardBackend::Xorg).unwrap();
    assert_eq!(parsed[1], KeyInput::Code(KeyCode::from_char('a')));
}

#[test]
fn hotkey_parse_errors() {
    assert!(HotKey::parse("", KeyboardBackend::Xorg).is_err());
    assert!(HotKey::parse("a+", KeyboardBackend::Xorg).is_err());
    assert!(HotKey::parse("<nosuchkey>", KeyboardBackend::Xorg).is_err());
    // Duplicate parts are rejected.
    assert!(HotKey::parse("a+a", KeyboardBackend::Xorg).is_err());
}

#[test]
fn hotkey_activation() {
    let mut count = 0usize;
    let mut hk = HotKey::new(HotKey::parse("<ctrl>+a", KeyboardBackend::Xorg).unwrap());

    // Pressing only part of the combination does not activate.
    if hk.press(KeyInput::Key(Key::Ctrl)) {
        count += 1;
    }
    assert_eq!(count, 0);

    // Completing the combination activates exactly once.
    if hk.press(KeyInput::Code(KeyCode::from_char('a'))) {
        count += 1;
    }
    assert_eq!(count, 1);

    // Re-pressing does not re-activate until a release happens.
    if hk.press(KeyInput::Code(KeyCode::from_char('a'))) {
        count += 1;
    }
    assert_eq!(count, 1);

    hk.release(KeyInput::Code(KeyCode::from_char('a')));
    if hk.press(KeyInput::Code(KeyCode::from_char('a'))) {
        count += 1;
    }
    assert_eq!(count, 2);
}

#[test]
fn canonical_normalises() {
    // Upper-case characters become lower case.
    assert_eq!(
        canonical(&KeyInput::Code(KeyCode::from_char('A')), KeyboardBackend::Xorg),
        KeyInput::Code(KeyCode::from_char('a'))
    );
    // Specific modifiers become their generic form.
    assert_eq!(
        canonical(&KeyInput::Key(Key::ShiftL), KeyboardBackend::Xorg),
        KeyInput::Key(Key::Shift)
    );
}

#[test]
fn hotkey_parse_names_and_codes() {
    // Key names are read in any case; numbers are virtual key codes.
    let parsed = HotKey::parse("<CTRL>+<65>", KeyboardBackend::Win32).unwrap();
    assert_eq!(parsed[0], KeyInput::Key(Key::Ctrl));
    assert_eq!(parsed[1], KeyInput::Code(KeyCode::from_vk(65)));
    // Other special keys are given as the backend's virtual key code.
    let parsed = HotKey::parse("<f1>", KeyboardBackend::Win32).unwrap();
    assert_eq!(parsed[0], KeyInput::Code(KeyCode::from_vk(0x70)));
}

#[test]
fn hotkey_parse_error_names_the_bad_part() {
    match HotKey::parse("a+<nope>", KeyboardBackend::Xorg) {
        Err(pynput::Error::InvalidString(m)) => assert_eq!(m, "<nope>"),
        _ => panic!("a bad part was accepted"),
    }
}

#[test]
fn keycode_texts() {
    let dead = KeyCode::from_dead('~').unwrap();
    assert_eq!(dead.repr(), "['~']");
    assert_eq!(KeyCode::from_char('a').repr(), "'a'");
    assert_eq!(KeyCode::from_vk(13).repr(), "<13>");
    assert_eq!(
        KeyCode::from_vk(13).debug_text(),
        format!("{:?}", KeyCode::from_vk(13))
    );
    match KeyCode::from_dead('q') {
        Err(pynput::Error::InvalidKey(m)) => assert_eq!(m, "'q'"),
        _ => panic!("'q' is no dead key"),
    }
}

#[test]
fn canonical_laws_on_examples() {
    for backend in [KeyboardBackend::Xorg, KeyboardBackend::Uinput, KeyboardBackend::Win32] {
        for key in Key::all() {
            let once = canonical(&KeyInput::Key(key), backend);
            assert_eq!(canonical(&once, backend), once);
            if let Some(base) = key.normal_modifier() {
                assert_eq!(once, KeyInput::Key(base));
            }
        }
    }
    let set: HashSet<KeyCode> = [KeyCode::from_char('a'), KeyCode::from_char('a')].into_iter().collect();
    assert_eq!(set.len(), 1);
}

#[test]
fn hotkey_state_follows_presses_and_releases() {
    let mut hk = HotKey::new(HotKey::parse("<shift>+x+y", KeyboardBackend::Xorg).unwrap());
    assert!(!hk.press(KeyInput::Key(Key::Shift)));
    assert!(!hk.press(KeyInput::Code(KeyCode::from_char('x'))));
    // A key outside the combination does not spoil it.
    assert!(!hk.press(KeyInput::Code(KeyCode::from_char('z'))));
    assert!(hk.press(KeyInput::Code(KeyCode::from_char('y'))));
    hk.release(KeyInput::Key(Key::Shift));
    assert!(!hk.press(KeyInput::Code(KeyCode::from_char('y'))));
    assert!(hk.press(KeyInput::Key(Key::Shift)));
}

#[test]
fn parsed_names_and_characters_are_in_normal_form() {
    for backend in [KeyboardBackend::Xorg, KeyboardBackend::Uinput, KeyboardBackend::Win32, KeyboardBackend::Darwin] {
        for key in [Key::Ctrl, Key::Shift, Key::AltGr, Key::Enter, Key::F12, Key::MediaVolumeUp, Key::CapsLock] {
            let text = format!("<{}>", key.name());
            assert_eq!(HotKey::parse(&text, backend).unwrap(), vec![canonical(&KeyInput::Key(key), backend)]);
        }
        for c in ['a', 'Q', '+', '7', '<'] {
            assert_eq!(
                HotKey::parse(&c.to_string(), backend).unwrap(),
                vec![canonical(&KeyInput::Code(KeyCode::from_char(c)), backend)]
            );
        }
    }
}

#[test]
fn split_gives_non_empty_parts_joined_by_plus() {
    let b = KeyboardBackend::Xorg;
    // A '+' that would leave a part empty belongs to the part.
    assert_eq!(
        HotKey::parse("a++", b).unwrap(),
        vec![KeyInput::Code(KeyCode::from_char('a')), KeyInput::Code(KeyCode::from_char('+'))]
    );
    assert_eq!(HotKey::parse("+", b).unwrap(), vec![KeyInput::Code(KeyCode::from_char('+'))]);
    // It fails only when empty or ending with a separating '+'.
    assert!(HotKey::parse("", b).is_err());
    assert!(HotKey::parse("a+", b).is_err());
    assert!(HotKey::parse("++", b).is_err());
}

#[test]
fn keycodes_are_hashed_by_character_or_virtual_key() {
    assert_eq!(KeyCode::from_char('a').hash_input(), HashInput::Char('a', false));
    assert_eq!(KeyCode::from_dead('~').unwrap().hash_input(), HashInput::Char('~', true));
    assert_eq!(KeyCode::from_vk(42).hash_input(), HashInput::Virtual(Some(42)));
    // A key code hashes as what it is hashed by.
    fn hashed<T: Hash>(value: &T) -> u64 {
        let mut h = DefaultHasher::new();
        value.hash(&mut h);
        h.finish()
    }
    let codes = [
        KeyCode::from_char('a'),
        KeyCode::from_dead('~').unwrap(),
        KeyCode::from_vk(42),
        KeyCode::from_vk_dead('~', 7).unwrap(),
    ];
    for k in codes {
        assert_eq!(hashed(&k), hashed(&k.hash_input()));
    }
}

#[test]
fn decimal_parsing_and_formatting() {
    assert_eq!(parse_u32("42"), Some(42));
    assert_eq!(parse_u32("+42"), Some(42));
    assert_eq!(parse_u32("007"), Some(7));
    assert_eq!(parse_u32("4294967295"), Some(u32::MAX));
    assert_eq!(parse_u32("4294967296"), None);
    assert_eq!(parse_u32("99999999999x"), None);
    assert_eq!(parse_u32(""), None);
    assert_eq!(parse_u32("+"), None);
    assert_eq!(parse_u32("-1"), None);
    assert_eq!(parse_u32("4a"), None);
    for s in ["0", "12", "+3", "4294967295", "4294967296", "1 ", " 1", "++1"] {
        assert_eq!(parse_u32(s), s.parse::<u32>().ok());
    }
    assert_eq!(decimal(0), "0");
    assert_eq!(decimal(1234567890123), "1234567890123");
    assert_eq!(decimal(u64::MAX), u64::MAX.to_string());
}
