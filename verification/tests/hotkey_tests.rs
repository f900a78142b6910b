use convpalette::hotkey::{candidate_hotkeys, hotkey_outcome, parse_hotkey, split_on_plus, Hotkey, KeyCode};

#[test]
fn parses_default() {
    assert_eq!(
        parse_hotkey("ctrl+alt+space"),
        Some(Hotkey { ctrl: true, alt: true, shift: false, super_key: false, key: KeyCode::Space })
    );
}

#[test]
fn parses_case_and_spaces() {
    assert_eq!(
        parse_hotkey(" Control + Shift + Z "),
        Some(Hotkey { ctrl: true, alt: false, shift: true, super_key: false, key: KeyCode::Letter('z') })
    );
    assert_eq!(
        parse_hotkey("win+F12"),
        Some(Hotkey { ctrl: false, alt: false, shift: false, super_key: true, key: KeyCode::F(12) })
    );
    assert_eq!(
        parse_hotkey("meta+alt+7"),
        Some(Hotkey { ctrl: false, alt: true, shift: false, super_key: true, key: KeyCode::Digit(7) })
    );
}

#[test]
fn last_key_wins() {
    assert_eq!(
        parse_hotkey("alt+a+b"),
        Some(Hotkey { ctrl: false, alt: true, shift: false, super_key: false, key: KeyCode::Letter('b') })
    );
}

#[test]
fn refused_hotkeys() {
    assert_eq!(parse_hotkey("space"), None);
    assert_eq!(parse_hotkey("ctrl+alt"), None);
    assert_eq!(parse_hotkey("ctrl+"), None);
    assert_eq!(parse_hotkey("ctrl+!"), None);
    assert_eq!(parse_hotkey("ctrl+f13"), None);
    assert_eq!(parse_hotkey("ctrl+ж"), None);
    assert_eq!(parse_hotkey(""), None);
}

#[test]
fn split_keeps_empty_pieces() {
    assert_eq!(split_on_plus("a++b"), vec!["a".to_string(), String::new(), "b".to_string()]);
    assert_eq!(split_on_plus(""), vec![String::new()]);
}

#[test]
fn fallbacks() {
    assert_eq!(
        candidate_hotkeys("ctrl+alt+c"),
        vec!["ctrl+alt+c", "ctrl+alt+space", "ctrl+shift+space", "alt+shift+c"]
    );
    assert_eq!(candidate_hotkeys("f1").len(), 5);
}

#[test]
fn outcomes() {
    assert_eq!(hotkey_outcome("ctrl+q", Some("ctrl+q")), Ok(None));
    assert_eq!(
        hotkey_outcome("ctrl+q", Some("ctrl+alt+space")),
        Ok(Some("Хоткей «ctrl+q» занят или некорректен — используется «ctrl+alt+space»".to_string()))
    );
    assert_eq!(
        hotkey_outcome("ctrl+q", None),
        Err("Не удалось зарегистрировать ни один хоткей — используйте трей.".to_string())
    );
}
