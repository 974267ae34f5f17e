use romescribe::hotkey::{
    fallback_hotkey, hotkey_or_fallback, key_code_for, modifier_for, parse_hotkey, parse_key_code,
    Hotkey, KeyCode, ModifierSet,
};

fn mods(meta: bool, shift: bool, alt: bool, control: bool) -> Option<ModifierSet> {
    Some(ModifierSet { meta, shift, alt, control })
}

#[test]
fn default_hotkey_text_parses_to_fallback() {
    assert_eq!(parse_hotkey("Cmd+Shift+R"), Ok(fallback_hotkey()));
    assert_eq!(
        fallback_hotkey(),
        Hotkey { modifiers: mods(true, true, false, false), key: KeyCode::KeyR }
    );
}

#[test]
fn parts_are_trimmed_and_case_insensitive() {
    assert_eq!(
        parse_hotkey(" ctrl + ALT +\tf5 "),
        Ok(Hotkey { modifiers: mods(false, false, true, true), key: KeyCode::F5 })
    );
    assert_eq!(
        parse_hotkey("\u{3000}Option+space\u{a0}"),
        Ok(Hotkey { modifiers: mods(false, false, true, false), key: KeyCode::Space })
    );
}

#[test]
fn modifier_synonyms() {
    for name in ["cmd", "meta", "command", "super"] {
        assert_eq!(modifier_for(name), mods(true, false, false, false));
    }
    assert_eq!(modifier_for("shift"), mods(false, true, false, false));
    for name in ["alt", "option", "opt"] {
        assert_eq!(modifier_for(name), mods(false, false, true, false));
    }
    for name in ["ctrl", "control"] {
        assert_eq!(modifier_for(name), mods(false, false, false, true));
    }
    assert_eq!(modifier_for("Shift"), None);
    assert_eq!(modifier_for("r"), None);
}

#[test]
fn key_without_modifiers_has_none() {
    assert_eq!(parse_hotkey("F12"), Ok(Hotkey { modifiers: None, key: KeyCode::F12 }));
    assert_eq!(parse_hotkey("7"), Ok(Hotkey { modifiers: None, key: KeyCode::Digit7 }));
}

#[test]
fn last_key_wins() {
    assert_eq!(
        parse_hotkey("A+Shift+B"),
        Ok(Hotkey { modifiers: mods(false, true, false, false), key: KeyCode::KeyB })
    );
}

#[test]
fn repeated_modifier_is_one_modifier() {
    assert_eq!(
        parse_hotkey("shift+Shift+Enter"),
        Ok(Hotkey { modifiers: mods(false, true, false, false), key: KeyCode::Enter })
    );
}

#[test]
fn key_synonyms() {
    assert_eq!(key_code_for("RETURN"), Some(KeyCode::Enter));
    assert_eq!(key_code_for("ENTER"), Some(KeyCode::Enter));
    assert_eq!(key_code_for("ESC"), Some(KeyCode::Escape));
    assert_eq!(key_code_for("ESCAPE"), Some(KeyCode::Escape));
    assert_eq!(key_code_for("TAB"), Some(KeyCode::Tab));
    assert_eq!(key_code_for("Z"), Some(KeyCode::KeyZ));
    assert_eq!(key_code_for("0"), Some(KeyCode::Digit0));
    assert_eq!(key_code_for("F10"), Some(KeyCode::F10));
    assert_eq!(key_code_for("a"), None);
    assert_eq!(key_code_for("F13"), None);
    assert_eq!(key_code_for("AB"), None);
}

#[test]
fn parse_key_code_reports_unknown_key() {
    assert_eq!(parse_key_code("esc"), Ok(KeyCode::Escape));
    assert_eq!(parse_key_code("f13"), Err("Unknown key: f13".to_string()));
}

#[test]
fn unknown_key_is_reported_in_lowercase() {
    assert_eq!(parse_hotkey("Cmd+Foo"), Err("Unknown key: foo".to_string()));
}

#[test]
fn first_bad_part_stops_reading() {
    assert_eq!(parse_hotkey("Bad+Worse"), Err("Unknown key: bad".to_string()));
}

#[test]
fn empty_part_is_an_unknown_key() {
    assert_eq!(parse_hotkey(""), Err("Unknown key: ".to_string()));
    assert_eq!(parse_hotkey("Cmd++R"), Err("Unknown key: ".to_string()));
}

#[test]
fn modifiers_alone_name_no_key() {
    assert_eq!(parse_hotkey("Cmd+Shift"), Err("No key specified in hotkey".to_string()));
}

#[test]
fn unicode_case_mapping_is_used() {
    // KELVIN SIGN lowercases to 'k'.
    assert_eq!(parse_hotkey("Cmd+\u{212A}").map(|h| h.key), Ok(KeyCode::KeyK));
}

#[test]
fn unreadable_hotkey_falls_back() {
    assert_eq!(hotkey_or_fallback("Hyper+Q"), fallback_hotkey());
    assert_eq!(
        hotkey_or_fallback("Ctrl+Q"),
        Hotkey { modifiers: mods(false, false, false, true), key: KeyCode::KeyQ }
    );
}

fn forms(parts: &[(&str, &str)]) -> Vec<(String, String)> {
    parts.iter().map(|(l, u)| (l.to_string(), u.to_string())).collect()
}

#[test]
fn parts_in_both_forms_make_a_hotkey() {
    assert_eq!(
        romescribe::hotkey::hotkey_from_parts(&forms(&[("shift", "SHIFT"), ("r", "R")])),
        Ok(Hotkey { modifiers: mods(false, true, false, false), key: KeyCode::KeyR })
    );
    assert_eq!(
        romescribe::hotkey::hotkey_from_parts(&forms(&[("opt", "OPT")])),
        Err("No key specified in hotkey".to_string())
    );
    assert_eq!(
        romescribe::hotkey::hotkey_from_parts(&forms(&[("x", "Y"), ("space", "SPACE")])),
        Ok(Hotkey { modifiers: None, key: KeyCode::Space })
    );
    assert_eq!(
        romescribe::hotkey::hotkey_from_parts(&forms(&[("hyper", "HYPER"), ("r", "R")])),
        Err("Unknown key: hyper".to_string())
    );
    assert_eq!(romescribe::hotkey::hotkey_from_parts(&Vec::new()), Err("No key specified in hotkey".to_string()));
}

#[test]
fn modifier_order_does_not_matter() {
    assert_eq!(parse_hotkey("Shift+Cmd+R"), parse_hotkey("Cmd+Shift+R"));
    assert_eq!(parse_hotkey("alt+ctrl+shift+cmd+A"), parse_hotkey("cmd+shift+ctrl+alt+A"));
}

#[test]
fn key_position_among_modifiers_does_not_matter() {
    assert_eq!(parse_hotkey("R+Cmd+Shift"), parse_hotkey("Cmd+Shift+R"));
    assert_eq!(parse_hotkey("Cmd+R+Shift"), parse_hotkey("Cmd+Shift+R"));
    assert_eq!(parse_hotkey("Bad+Cmd"), parse_hotkey("Cmd+Bad"));
}

#[test]
fn key_synonyms_name_the_same_key() {
    assert_eq!(parse_key_code("return"), parse_key_code("enter"));
    assert_eq!(parse_key_code("esc"), parse_key_code("Escape"));
    assert_ne!(parse_key_code("tab"), parse_key_code("space"));
}

#[test]
fn ascii_hotkeys_read_the_same_in_any_case() {
    for text in ["Cmd+Shift+R", "ctrl+ALT+f5", "Hyper+q", "shift"] {
        assert_eq!(parse_hotkey(&text.to_ascii_uppercase()), parse_hotkey(text));
        assert_eq!(parse_hotkey(&text.to_ascii_lowercase()), parse_hotkey(text));
    }
    for key in ["esc", "Return", "f12", "q", "7"] {
        assert_eq!(parse_key_code(&key.to_ascii_uppercase()), parse_key_code(key));
        assert_eq!(parse_key_code(&key.to_ascii_lowercase()), parse_key_code(key));
    }
}
