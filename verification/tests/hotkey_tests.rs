use global_hotkey::hotkey::{Code, HotKey, Modifiers};
use muka_taskswitch::hotkey::{
    normalize_hotkey, parse_hotkey, parse_hotkey_text, parse_key, parse_normalized_hotkey,
    to_global_hotkey, HotkeyModifiers, KeyCode, ParsedHotkey,
};

fn mods(control: bool, alt: bool, shift: bool, meta: bool) -> HotkeyModifiers {
    HotkeyModifiers { control, alt, shift, meta }
}

#[test]
fn default_hotkey_is_alt_backquote() {
    let h = parse_hotkey_text("Alt+Backquote");
    assert_eq!(h, ParsedHotkey { modifiers: mods(false, true, false, false), key: KeyCode::Backquote });
}

#[test]
fn spaces_and_case_are_ignored() {
    let h = parse_hotkey_text("Ctrl + Shift + Q");
    assert_eq!(h, ParsedHotkey { modifiers: mods(true, false, true, false), key: KeyCode::KeyQ });
    assert_eq!(normalize_hotkey(" Alt + BackQuote "), "alt+backquote");
}

#[test]
fn modifier_aliases() {
    assert_eq!(parse_hotkey_text("control+a").modifiers, mods(true, false, false, false));
    assert_eq!(parse_hotkey_text("cmd+a").modifiers, mods(false, false, false, true));
    assert_eq!(parse_hotkey_text("command+a").modifiers, mods(false, false, false, true));
    assert_eq!(parse_hotkey_text("Win+a").modifiers, mods(false, false, false, true));
    assert_eq!(parse_hotkey_text("META+a").modifiers, mods(false, false, false, true));
}

#[test]
fn modifiers_in_any_order_and_last_key_wins() {
    let a = parse_hotkey_text("a+ctrl+alt");
    let b = parse_hotkey_text("alt+ctrl+a");
    assert_eq!(a, b);
    assert_eq!(parse_hotkey_text("shift+a+b").key, KeyCode::KeyB);
}

#[test]
fn unknown_or_missing_key_is_backquote() {
    assert_eq!(parse_hotkey_text("ctrl+nosuchkey").key, KeyCode::Backquote);
    assert_eq!(parse_hotkey_text("ctrl+alt").key, KeyCode::Backquote);
    assert_eq!(parse_hotkey_text(""), ParsedHotkey { modifiers: mods(false, false, false, false), key: KeyCode::Backquote });
    assert_eq!(parse_normalized_hotkey("ctrl++"), ParsedHotkey { modifiers: mods(true, false, false, false), key: KeyCode::Backquote });
}

#[test]
fn key_names() {
    let cases: Vec<(&str, KeyCode)> = vec![
        ("backquote", KeyCode::Backquote), ("`", KeyCode::Backquote), ("~", KeyCode::Backquote),
        ("tab", KeyCode::Tab), ("enter", KeyCode::Enter), ("return", KeyCode::Enter),
        ("space", KeyCode::Space), ("esc", KeyCode::Escape), ("escape", KeyCode::Escape),
        ("backspace", KeyCode::Backspace), ("delete", KeyCode::Delete), ("del", KeyCode::Delete),
        ("up", KeyCode::ArrowUp), ("down", KeyCode::ArrowDown), ("left", KeyCode::ArrowLeft),
        ("right", KeyCode::ArrowRight), ("home", KeyCode::Home), ("end", KeyCode::End),
        ("pageup", KeyCode::PageUp), ("pagedown", KeyCode::PageDown), ("0", KeyCode::Digit0),
        ("9", KeyCode::Digit9), ("a", KeyCode::KeyA), ("z", KeyCode::KeyZ), ("f1", KeyCode::F1),
        ("f12", KeyCode::F12), ("F1", KeyCode::Backquote), ("f13", KeyCode::Backquote),
    ];
    for (name, key) in cases {
        assert_eq!(parse_key(name), key, "key name {}", name);
    }
}

#[test]
fn global_hotkeys_match_the_crate() {
    assert_eq!(parse_hotkey("Alt+Backquote"), HotKey::new(Some(Modifiers::ALT), Code::Backquote));
    assert_eq!(parse_hotkey("Ctrl+Shift+Q"), HotKey::new(Some(Modifiers::CONTROL | Modifiers::SHIFT), Code::KeyQ));
    assert_eq!(parse_hotkey("win+f12"), HotKey::new(Some(Modifiers::META), Code::F12));
    assert_eq!(parse_hotkey("pagedown"), HotKey::new(Some(Modifiers::empty()), Code::PageDown));
    assert_eq!(parse_hotkey("ctrl+5"), HotKey::new(Some(Modifiers::CONTROL), Code::Digit5));
    assert_eq!(parse_hotkey("Win+F4"), HotKey::new(Some(Modifiers::META), Code::F4));
    assert_eq!(parse_hotkey("Ctrl+Shift"), HotKey::new(Some(Modifiers::CONTROL | Modifiers::SHIFT), Code::Backquote));
}

#[test]
fn spellings_of_the_same_hotkey_agree() {
    let expected = HotKey::new(Some(Modifiers::CONTROL | Modifiers::SHIFT), Code::KeyQ);
    assert_eq!(parse_hotkey("Shift+Ctrl+Q"), expected);
    assert_eq!(parse_hotkey("ctrl + shift + q"), expected);
    assert_eq!(parse_hotkey("Ctrl+Shift+Q"), expected);
    assert_eq!(parse_hotkey("control+shift+q"), expected);
    let text = " Alt + BackQuote ";
    assert_eq!(parse_hotkey(text), parse_hotkey(&normalize_hotkey(text)));
    assert_eq!(parse_hotkey(text), parse_hotkey(&text.replace(' ', "").to_lowercase()));
}

#[test]
fn every_key_converts_to_its_code() {
    let keys = [
        (KeyCode::Tab, Code::Tab), (KeyCode::Enter, Code::Enter), (KeyCode::Space, Code::Space),
        (KeyCode::Escape, Code::Escape), (KeyCode::Backspace, Code::Backspace),
        (KeyCode::Delete, Code::Delete), (KeyCode::ArrowUp, Code::ArrowUp),
        (KeyCode::ArrowDown, Code::ArrowDown), (KeyCode::ArrowLeft, Code::ArrowLeft),
        (KeyCode::ArrowRight, Code::ArrowRight), (KeyCode::Home, Code::Home), (KeyCode::End, Code::End),
        (KeyCode::PageUp, Code::PageUp), (KeyCode::PageDown, Code::PageDown),
        (KeyCode::Digit0, Code::Digit0), (KeyCode::KeyM, Code::KeyM), (KeyCode::F7, Code::F7),
    ];
    for (key, code) in keys {
        let parsed = ParsedHotkey { modifiers: mods(false, false, false, false), key };
        assert_eq!(to_global_hotkey(&parsed).key, code);
    }
}

#[test]
fn every_key_name_reaches_a_crate_code_of_the_same_name() {
    let mut names: Vec<String> = vec![
        "backquote", "tab", "enter", "space", "escape", "backspace", "delete", "up", "down", "left",
        "right", "home", "end", "pageup", "pagedown",
    ]
    .into_iter()
    .map(|s| s.to_string())
    .collect();
    for d in 0..10 {
        names.push(d.to_string());
    }
    for c in 'a'..='z' {
        names.push(c.to_string());
    }
    for f in 1..=12 {
        names.push(format!("f{}", f));
    }
    assert_eq!(names.len(), 63);
    for name in names {
        let key = parse_key(&name);
        let hotkey = to_global_hotkey(&ParsedHotkey { modifiers: mods(false, false, false, false), key });
        assert_eq!(hotkey.key.to_string(), key.w3c_name(), "key name {}", name);
    }
}
