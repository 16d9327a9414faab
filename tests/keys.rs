use panel_core::keys::{format_shortcut_display, parse_key, parse_modifiers, KeyCode, ModifierSet};

fn names(list: &[&str]) -> Vec<String> {
    list.iter().map(|s| s.to_string()).collect()
}

const NONE: ModifierSet = ModifierSet { alt: false, control: false, shift: false, meta: false };

#[test]
fn letters_decode_in_either_case() {
    assert_eq!(parse_key("M"), Some(KeyCode::Letter('M')));
    assert_eq!(parse_key("m"), Some(KeyCode::Letter('M')));
    assert_eq!(parse_key("a"), Some(KeyCode::Letter('A')));
    assert_eq!(parse_key("Z"), Some(KeyCode::Letter('Z')));
}

#[test]
fn digits_and_their_aliases() {
    assert_eq!(parse_key("0"), Some(KeyCode::Digit(0)));
    assert_eq!(parse_key("7"), Some(KeyCode::Digit(7)));
    assert_eq!(parse_key("Digit7"), Some(KeyCode::Digit(7)));
    assert_eq!(parse_key("digit9"), Some(KeyCode::Digit(9)));
    assert_eq!(parse_key("DIGIT"), None);
    assert_eq!(parse_key("DIGITS"), None);
}

#[test]
fn function_keys_one_to_twelve() {
    assert_eq!(parse_key("F1"), Some(KeyCode::Function(1)));
    assert_eq!(parse_key("f9"), Some(KeyCode::Function(9)));
    assert_eq!(parse_key("f10"), Some(KeyCode::Function(10)));
    assert_eq!(parse_key("F12"), Some(KeyCode::Function(12)));
    assert_eq!(parse_key("F0"), None);
    assert_eq!(parse_key("F13"), None);
    assert_eq!(parse_key("F01"), None);
}

#[test]
fn named_keys() {
    assert_eq!(parse_key("Space"), Some(KeyCode::Space));
    assert_eq!(parse_key("enter"), Some(KeyCode::Enter));
    assert_eq!(parse_key("Escape"), Some(KeyCode::Escape));
    assert_eq!(parse_key("esc"), Some(KeyCode::Escape));
    assert_eq!(parse_key("TAB"), Some(KeyCode::Tab));
}

#[test]
fn key_decoding_ignores_case() {
    for (a, b) in [("k", "K"), ("digit3", "DiGiT3"), ("f11", "F11"), ("space", "SPACE"), ("Esc", "eSC")] {
        assert!(parse_key(a).is_some());
        assert_eq!(parse_key(a), parse_key(b));
    }
}

#[test]
fn unknown_keys_decode_to_none() {
    for k in ["", "AB", "Alt", "FX", "Backspace", "-", "10", " M"] {
        assert_eq!(parse_key(k), None, "{}", k);
    }
}

#[test]
fn no_modifier_names_is_none() {
    assert_eq!(parse_modifiers(&[]), None);
}

#[test]
fn modifiers_ignore_case_and_repeats() {
    let alt = Some(ModifierSet { alt: true, ..NONE });
    assert_eq!(parse_modifiers(&names(&["alt", "ALT"])), alt);
    assert_eq!(parse_modifiers(&names(&["Alt"])), alt);
    assert_eq!(parse_modifiers(&names(&["Option"])), alt);
}

#[test]
fn modifier_synonyms_and_unknown_names() {
    assert_eq!(
        parse_modifiers(&names(&["cmd", "Super", "ctrl", "bogus"])),
        Some(ModifierSet { control: true, meta: true, ..NONE })
    );
    assert_eq!(
        parse_modifiers(&names(&["Command", "META", "Control", "shift"])),
        Some(ModifierSet { control: true, shift: true, meta: true, ..NONE })
    );
    assert_eq!(parse_modifiers(&names(&["bogus"])), Some(NONE));
}

#[test]
fn display_orders_glyphs_and_keeps_key() {
    assert_eq!(format_shortcut_display(&names(&["Alt"]), "M"), "\u{2325}M");
    assert_eq!(format_shortcut_display(&names(&["Shift", "alt"]), "K"), "\u{2325}\u{21E7}K");
    assert_eq!(format_shortcut_display(&names(&["cmd", "CTRL"]), "f1"), "\u{2303}\u{2318}f1");
    assert_eq!(format_shortcut_display(&names(&["alt", "ALT", "x"]), "m"), "\u{2325}m");
    assert_eq!(format_shortcut_display(&[], "Space"), "Space");
}
