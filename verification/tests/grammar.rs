use macropad::keyboard::KeyCategory;
use macropad::mapping::Mapping;
use macropad::text::split_str;

#[test]
fn uppercase_first_basic() {
    assert_eq!(Mapping::uppercase_first("ctrl"), "Ctrl");
    assert_eq!(Mapping::uppercase_first("Ctrl"), "Ctrl");
    assert_eq!(Mapping::uppercase_first(""), "");
    assert_eq!(Mapping::uppercase_first("1abc"), "1abc");
    assert_eq!(Mapping::uppercase_first("wHEELUP"), "WHEELUP");
}

#[test]
fn modifier_keys_recognized() {
    assert!(Mapping::is_modifier_key("Ctrl"));
    assert!(Mapping::is_modifier_key("Shift"));
    assert!(Mapping::is_modifier_key("Alt"));
    assert!(Mapping::is_modifier_key("Win"));
    assert!(Mapping::is_modifier_key("Rctrl"));
    assert!(Mapping::is_modifier_key("Rshift"));
    assert!(Mapping::is_modifier_key("Ralt"));
    assert!(Mapping::is_modifier_key("Rwin"));
    assert!(!Mapping::is_modifier_key("ctrl"));
    assert!(!Mapping::is_modifier_key("Control"));
}

#[test]
fn media_keys_recognized() {
    assert!(Mapping::is_media_key("Play"));
    assert!(Mapping::is_media_key("Prev"));
    assert!(Mapping::is_media_key("Previous"));
    assert!(Mapping::is_media_key("Volumeup"));
    assert!(Mapping::is_media_key("Brightnessdown"));
    assert!(!Mapping::is_media_key("Louder"));
}

#[test]
fn regular_keys_recognized() {
    assert!(Mapping::is_regular_key("A"));
    assert!(Mapping::is_regular_key("Z"));
    assert!(Mapping::is_regular_key("0"));
    assert!(Mapping::is_regular_key("9"));
    assert!(Mapping::is_regular_key("F1"));
    assert!(Mapping::is_regular_key("F9"));
    assert!(Mapping::is_regular_key("F13"));
    assert!(Mapping::is_regular_key("F24"));
    assert!(Mapping::is_regular_key("Space"));
    assert!(Mapping::is_regular_key("Enter"));
    assert!(Mapping::is_regular_key("Backspace"));
    assert!(Mapping::is_regular_key("Esc"));
    assert!(Mapping::is_regular_key("Comma"));
    assert!(Mapping::is_regular_key("Dot"));
    assert!(Mapping::is_regular_key("Slash"));
    assert!(!Mapping::is_regular_key("F0"));
    assert!(!Mapping::is_regular_key("F25"));
    assert!(!Mapping::is_regular_key("a"));
    assert!(!Mapping::is_regular_key("AB"));
}

#[test]
fn mouse_actions_recognized() {
    assert!(Mapping::is_mouse_action("Click"));
    assert!(Mapping::is_mouse_action("Mclick"));
    assert!(Mapping::is_mouse_action("Rclick"));
    assert!(Mapping::is_mouse_action("Wheelup"));
    assert!(Mapping::is_mouse_action("Wheeldown"));
    assert!(!Mapping::is_mouse_action("Doubleclick"));
}

#[test]
fn classify_applies_canonicalization() {
    assert_eq!(Mapping::classify_key("ctrl"), Some(KeyCategory::Modifier));
    assert_eq!(Mapping::classify_key("play"), Some(KeyCategory::Media));
    assert_eq!(Mapping::classify_key("c"), Some(KeyCategory::Regular));
    assert_eq!(Mapping::classify_key("f13"), Some(KeyCategory::Regular));
    assert_eq!(Mapping::classify_key("wheelup"), Some(KeyCategory::Mouse));
    assert_eq!(Mapping::classify_key("foobar"), None);
    // Only the first character is case-folded; other characters must match
    // the canonical spelling exactly.
    assert_eq!(Mapping::classify_key("CLICK"), None);
    assert_eq!(Mapping::classify_key(""), None);
}

#[test]
fn compound_mapping_parses_into_actions_and_tokens() {
    let compounds = Mapping::parse_mapping("ctrl-c,ctrl-v");
    assert_eq!(compounds.len(), 2);
    assert_eq!(compounds[0], vec!["ctrl".to_string(), "c".to_string()]);
    assert_eq!(compounds[1], vec!["ctrl".to_string(), "v".to_string()]);
    for tokens in &compounds {
        assert_eq!(tokens.len(), 2);
        assert_eq!(Mapping::classify_key(tokens[0].as_str()), Some(KeyCategory::Modifier));
        assert_eq!(Mapping::classify_key(tokens[1].as_str()), Some(KeyCategory::Regular));
    }
    // An empty mapping string still parses: one compound action holding one
    // empty token.
    let compounds = Mapping::parse_mapping("");
    assert_eq!(compounds, vec![vec![String::new()]]);
}

#[test]
fn split_keeps_empty_segments() {
    let parts = split_str("", ',');
    assert_eq!(parts, vec![String::new()]);
    let parts = split_str("a,,b,", ',');
    assert_eq!(parts, vec!["a".to_string(), String::new(), "b".to_string(), String::new()]);
}
