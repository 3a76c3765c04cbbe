use tomchat::hotkey::{
    parse_hotkey_string, parse_key_code, HotkeyParseError, HotkeyRegistry, KeyCode,
    KeyCombination,
};
use tomchat::chars::str_to_chars;

#[test]
fn parses_modifiers_and_key() {
    let c = parse_hotkey_string("ctrl+shift+r").unwrap();
    assert_eq!(
        c,
        KeyCombination { ctrl: true, shift: true, alt: false, meta: false, key: KeyCode::KeyR }
    );
}

#[test]
fn parsing_ignores_case_and_spaces() {
    let c = parse_hotkey_string("  CTRL + Alt + F5 ").unwrap();
    assert_eq!(
        c,
        KeyCombination { ctrl: true, shift: false, alt: true, meta: false, key: KeyCode::F5 }
    );
}

#[test]
fn modifier_synonyms_map_together() {
    let a = parse_hotkey_string("cmd+a").unwrap();
    assert!(a.ctrl);
    let b = parse_hotkey_string("super+b").unwrap();
    assert!(b.meta);
    let c = parse_hotkey_string("win+c").unwrap();
    assert!(c.meta);
    let d = parse_hotkey_string("meta+d").unwrap();
    assert!(d.meta);
}

#[test]
fn modifiers_alone_leave_key_unidentified() {
    let c = parse_hotkey_string("ctrl+shift").unwrap();
    assert_eq!(c.key, KeyCode::Unidentified);
    assert!(c.ctrl && c.shift);
}

#[test]
fn second_key_is_an_error() {
    assert_eq!(parse_hotkey_string("a+b"), Err(HotkeyParseError::MultipleKeys));
}

#[test]
fn unknown_key_is_an_error() {
    assert_eq!(parse_hotkey_string("ctrl+%"), Err(HotkeyParseError::UnknownKey));
    assert_eq!(parse_hotkey_string(""), Err(HotkeyParseError::UnknownKey));
    assert_eq!(parse_hotkey_string("ctrl++r"), Err(HotkeyParseError::UnknownKey));
}

#[test]
fn key_names_cover_the_table() {
    assert_eq!(parse_key_code(&str_to_chars("a")), Ok(KeyCode::KeyA));
    assert_eq!(parse_key_code(&str_to_chars("Z")), Ok(KeyCode::KeyZ));
    assert_eq!(parse_key_code(&str_to_chars("0")), Ok(KeyCode::Digit0));
    assert_eq!(parse_key_code(&str_to_chars("9")), Ok(KeyCode::Digit9));
    assert_eq!(parse_key_code(&str_to_chars("space")), Ok(KeyCode::Space));
    assert_eq!(parse_key_code(&str_to_chars("enter")), Ok(KeyCode::Enter));
    assert_eq!(parse_key_code(&str_to_chars("return")), Ok(KeyCode::Enter));
    assert_eq!(parse_key_code(&str_to_chars("tab")), Ok(KeyCode::Tab));
    assert_eq!(parse_key_code(&str_to_chars("backspace")), Ok(KeyCode::Backspace));
    assert_eq!(parse_key_code(&str_to_chars("delete")), Ok(KeyCode::Delete));
    assert_eq!(parse_key_code(&str_to_chars("escape")), Ok(KeyCode::Escape));
    assert_eq!(parse_key_code(&str_to_chars("esc")), Ok(KeyCode::Escape));
    assert_eq!(parse_key_code(&str_to_chars("lshift")), Ok(KeyCode::ShiftLeft));
    assert_eq!(parse_key_code(&str_to_chars("rshift")), Ok(KeyCode::ShiftRight));
    assert_eq!(parse_key_code(&str_to_chars("f1")), Ok(KeyCode::F1));
    assert_eq!(parse_key_code(&str_to_chars("F12")), Ok(KeyCode::F12));
    assert_eq!(parse_key_code(&str_to_chars("up")), Ok(KeyCode::ArrowUp));
    assert_eq!(parse_key_code(&str_to_chars("down")), Ok(KeyCode::ArrowDown));
    assert_eq!(parse_key_code(&str_to_chars("left")), Ok(KeyCode::ArrowLeft));
    assert_eq!(parse_key_code(&str_to_chars("right")), Ok(KeyCode::ArrowRight));
    assert_eq!(parse_key_code(&str_to_chars("bogus")), Err(HotkeyParseError::UnknownKey));
}

#[test]
fn registry_records_and_admits() {
    let mut reg = HotkeyRegistry::new();
    assert!(reg.lookup(5).is_none());
    assert!(reg.admit_event(5, true).is_none());

    reg.record(5, String::from("ctrl+shift+r"));
    assert_eq!(reg.lookup(5).unwrap(), "ctrl+shift+r");

    let ev = reg.admit_event(5, true).unwrap();
    assert_eq!(ev.id, 5);
    assert!(ev.pressed);
    assert_eq!(ev.hotkey, "ctrl+shift+r");

    let rel = reg.admit_event(5, false).unwrap();
    assert!(!rel.pressed);

    let gone = reg.forget(5);
    assert_eq!(gone.unwrap(), "ctrl+shift+r");
    assert!(reg.lookup(5).is_none());
    assert!(reg.forget(5).is_none());
}
