use easypaste::config::Config;
use easypaste::hotkey::{
    key_from_upper, modifier_from_upper, modifiers_from_names, parse_key, parse_modifier,
    HotkeyKey, Modifier, ModifierSet,
};
use easypaste::prompt::{accepts_offer, is_yes};
use easypaste::text::same_text;

#[test]
fn default_config() {
    let c = Config::default();
    assert_eq!(c.delimiter, "%%%");
    assert_eq!(c.file_path, "input.txt");
    assert_eq!(c.hotkey_modifiers, vec!["CTRL".to_string(), "SHIFT".to_string()]);
    assert_eq!(c.hotkey_key, "B");
    assert_eq!(c.paste, Some(true));
    assert!(c.auto_paste());
}

#[test]
fn overrides_replace_file_and_paste() {
    let c = Config::default().with_overrides("doc.txt".to_string(), "%%%".to_string(), true);
    assert_eq!(c.file_path, "doc.txt");
    assert_eq!(c.delimiter, "%%%");
    assert_eq!(c.paste, Some(false));
    assert!(!c.auto_paste());
}

#[test]
fn default_delimiter_keeps_configured_one() {
    let mut base = Config::default();
    base.delimiter = "###".to_string();
    let c = base.with_overrides("f".to_string(), "%%%".to_string(), false);
    assert_eq!(c.delimiter, "###");
    assert_eq!(c.paste, Some(true));
}

#[test]
fn other_delimiter_replaces_configured_one() {
    let mut base = Config::default();
    base.delimiter = "###".to_string();
    let c = base.with_overrides("f".to_string(), "--".to_string(), false);
    assert_eq!(c.delimiter, "--");
}

#[test]
fn unset_paste_means_on() {
    let mut c = Config::default();
    c.paste = None;
    assert!(c.auto_paste());
}

#[test]
fn modifiers_in_any_case() {
    assert_eq!(parse_modifier("ctrl"), Some(Modifier::Control));
    assert_eq!(parse_modifier("Control"), Some(Modifier::Control));
    assert_eq!(parse_modifier("cmd"), Some(Modifier::Super));
    assert_eq!(parse_modifier("win"), Some(Modifier::Super));
    assert_eq!(parse_modifier("Meta"), Some(Modifier::Super));
    assert_eq!(parse_modifier("option"), Some(Modifier::Alt));
    assert_eq!(parse_modifier("ALT"), Some(Modifier::Alt));
    assert_eq!(parse_modifier("shift"), Some(Modifier::Shift));
    assert_eq!(parse_modifier("hyper"), None);
    assert_eq!(modifier_from_upper("ctrl"), None);
    assert_eq!(modifier_from_upper("CTRL"), Some(Modifier::Control));
}

#[test]
fn keys_in_any_case() {
    assert_eq!(parse_key("b"), Some(HotkeyKey::Letter('B')));
    assert_eq!(parse_key("Z"), Some(HotkeyKey::Letter('Z')));
    assert_eq!(parse_key("7"), Some(HotkeyKey::Digit('7')));
    assert_eq!(parse_key("space"), Some(HotkeyKey::Space));
    assert_eq!(parse_key("Return"), Some(HotkeyKey::Enter));
    assert_eq!(parse_key("enter"), Some(HotkeyKey::Enter));
    assert_eq!(parse_key("F1"), None);
    assert_eq!(parse_key(""), None);
    assert_eq!(key_from_upper("b"), None);
}

#[test]
fn modifier_set_from_names() {
    let names = vec!["ctrl".to_string(), "Shift".to_string(), "CONTROL".to_string()];
    assert_eq!(
        modifiers_from_names(&names),
        Some(ModifierSet { super_key: false, control: true, alt: false, shift: true })
    );
    assert_eq!(
        modifiers_from_names(&Vec::new()),
        Some(ModifierSet { super_key: false, control: false, alt: false, shift: false })
    );
}

#[test]
fn unknown_modifier_is_rejected() {
    let names = vec!["ctrl".to_string(), "bogus".to_string(), "Shift".to_string()];
    assert_eq!(modifiers_from_names(&names), None);
}

#[test]
fn offer_answers() {
    assert!(accepts_offer("y"));
    assert!(accepts_offer("  Y\n"));
    assert!(!accepts_offer("yes"));
    assert!(!accepts_offer("n"));
    assert!(!accepts_offer(""));
    assert!(is_yes("y"));
    assert!(!is_yes("Y"));
}

#[test]
fn text_comparison() {
    assert!(same_text("abc", "abc"));
    assert!(!same_text("abc", "abd"));
    assert!(!same_text("ab", "abc"));
}
