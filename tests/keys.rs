use astrolabe::keyboard::{
    char_key_codes, key_codes, named_key_codes, translate_key, translate_keyboard_event, Key,
    KeyEventType, KeyPress, KeyboardEvent, Modifiers, NamedKey, VirtualKey,
};

fn no_mods() -> Modifiers {
    Modifiers { alt: false, control: false, logo: false, shift: false }
}

fn ctrl() -> Modifiers {
    Modifiers { alt: false, control: true, logo: false, shift: false }
}

fn ch(s: &str) -> Key {
    Key::Character(s.to_string())
}

#[test]
fn letter_press_inserts_text() {
    let e = translate_key(KeyPress::Press, Some(ch("a")), Some(ch("a")), no_mods(), Some("a".to_string()))
        .unwrap();
    assert_eq!(e.ty, KeyEventType::Char);
    assert_eq!(e.virtual_key, VirtualKey::A);
    assert_eq!(e.native_key, 30);
    assert_eq!(e.text, "a");
    assert_eq!(e.unmodified_text, "a");
    assert!(!e.modifiers.ctrl);
}

#[test]
fn ctrl_press_is_raw() {
    let e = translate_key(KeyPress::Press, Some(ch("c")), Some(ch("c")), ctrl(), Some("c".to_string()))
        .unwrap();
    assert_eq!(e.ty, KeyEventType::RawKeyDown);
    assert_eq!(e.virtual_key, VirtualKey::C);
    assert_eq!(e.native_key, 46);
    assert!(e.modifiers.ctrl);
}

#[test]
fn ctrl_release_is_key_up() {
    let e = translate_key(KeyPress::Unpress, None, Some(ch("c")), ctrl(), None).unwrap();
    assert_eq!(e.ty, KeyEventType::KeyUp);
}

#[test]
fn release_is_key_up() {
    let e = translate_key(KeyPress::Unpress, None, Some(ch("z")), no_mods(), None).unwrap();
    assert_eq!(e.ty, KeyEventType::KeyUp);
    assert_eq!(e.virtual_key, VirtualKey::Z);
    assert_eq!(e.native_key, 44);
    assert_eq!(e.text, "");
}

#[test]
fn space_carries_a_space() {
    let e = translate_key(KeyPress::Press, None, Some(Key::Named(NamedKey::Space)), no_mods(), None)
        .unwrap();
    assert_eq!(e.ty, KeyEventType::Char);
    assert_eq!(e.text, " ");
    assert_eq!(e.virtual_key, VirtualKey::Space);
    assert_eq!(e.native_key, 57);
}

#[test]
fn named_key_has_no_text() {
    let e = translate_key(
        KeyPress::Press,
        None,
        Some(Key::Named(NamedKey::Enter)),
        no_mods(),
        Some("\r".to_string()),
    )
    .unwrap();
    assert_eq!(e.ty, KeyEventType::RawKeyDown);
    assert_eq!(e.text, "");
    assert_eq!(e.virtual_key, VirtualKey::Return);
    assert_eq!(e.native_key, 28);
}

#[test]
fn non_ascii_text_is_raw() {
    let e = translate_key(KeyPress::Press, None, Some(ch("e")), no_mods(), Some("é".to_string()))
        .unwrap();
    assert_eq!(e.ty, KeyEventType::RawKeyDown);
    assert_eq!(e.text, "é");
}

#[test]
fn shifted_key_keeps_unmodified_text() {
    let shift = Modifiers { alt: false, control: false, logo: false, shift: true };
    let e = translate_key(KeyPress::Press, Some(ch("a")), Some(ch("a")), shift, Some("A".to_string()))
        .unwrap();
    assert_eq!(e.text, "A");
    assert_eq!(e.unmodified_text, "a");
    assert!(e.modifiers.shift);
}

#[test]
fn modifiers_map_to_native_flags() {
    let m = Modifiers { alt: true, control: false, logo: true, shift: false };
    let e = translate_key(KeyPress::Press, None, Some(Key::Named(NamedKey::Tab)), m, None).unwrap();
    assert!(e.modifiers.alt);
    assert!(e.modifiers.meta);
    assert!(!e.modifiers.ctrl);
    assert!(!e.modifiers.shift);
}

#[test]
fn unknown_keys_yield_nothing() {
    assert!(translate_key(KeyPress::Press, None, Some(Key::Unidentified), no_mods(), None).is_none());
    assert!(translate_key(KeyPress::Press, None, None, no_mods(), None).is_none());
    assert!(translate_key(KeyPress::Press, None, Some(ch("ab")), no_mods(), None).is_none());
    assert!(translate_key(KeyPress::Press, None, Some(ch("'")), no_mods(), None).is_none());
    assert!(translate_key(KeyPress::Press, None, Some(Key::Named(NamedKey::Other)), no_mods(), None)
        .is_none());
}

#[test]
fn keyboard_events_translate() {
    let pressed = KeyboardEvent::KeyPressed {
        key: ch("1"),
        modified_key: ch("1"),
        modifiers: no_mods(),
        text: Some("1".to_string()),
    };
    let e = translate_keyboard_event(pressed).unwrap();
    assert_eq!(e.ty, KeyEventType::Char);
    assert_eq!(e.virtual_key, VirtualKey::Key1);
    assert_eq!(e.native_key, 2);
    let released = KeyboardEvent::KeyReleased { key: Key::Named(NamedKey::Escape), modifiers: no_mods() };
    let e = translate_keyboard_event(released).unwrap();
    assert_eq!(e.ty, KeyEventType::KeyUp);
    assert_eq!(e.native_key, 1);
    assert!(translate_keyboard_event(KeyboardEvent::ModifiersChanged(ctrl())).is_none());
}

#[test]
fn translation_is_deterministic() {
    let run = || {
        translate_key(KeyPress::Press, Some(ch("q")), Some(ch("q")), ctrl(), Some("q".to_string()))
    };
    let first = run();
    let second = run();
    assert!(first.is_some());
    assert_eq!(first, second);
}

#[test]
fn key_code_tables() {
    assert_eq!(named_key_codes(NamedKey::F12), Some((VirtualKey::F12, 70)));
    assert_eq!(named_key_codes(NamedKey::ArrowLeft), Some((VirtualKey::Left, 105)));
    assert_eq!(named_key_codes(NamedKey::Other), None);
    assert_eq!(char_key_codes('0'), Some((VirtualKey::Key0, 11)));
    assert_eq!(char_key_codes('/'), Some((VirtualKey::Oem2, 53)));
    assert_eq!(char_key_codes('A'), None);
    assert_eq!(key_codes(&ch("]")), Some((VirtualKey::Oem6, 27)));
    assert_eq!(key_codes(&Key::Unidentified), None);
}
