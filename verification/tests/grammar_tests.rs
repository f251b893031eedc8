use shortcut_core::grammar::parse;
use shortcut_core::grammar::Chord;
use shortcut_core::grammar::KeyCode;
use shortcut_core::grammar::Modifiers;

fn mods(super_key: bool, alt: bool, control: bool, shift: bool) -> Modifiers {
    Modifiers { super_key, alt, control, shift }
}

#[test]
fn parse_alt_shift_arrow_up() {
    assert_eq!(
        parse("Alt+Shift+ArrowUp"),
        Some(Chord { modifiers: mods(false, true, false, true), key: KeyCode::ArrowUp })
    );
}

#[test]
fn parse_bare_letter() {
    assert_eq!(parse("Z"), Some(Chord { modifiers: mods(false, false, false, false), key: KeyCode::KeyZ }));
}

#[test]
fn parse_empty_string_fails() {
    assert_eq!(parse(""), None);
}

#[test]
fn parse_is_deterministic_across_calls() {
    let a = parse("Cmd+Shift+F5");
    let b = parse("Cmd+Shift+F5");
    assert_eq!(a, b);
    assert_eq!(
        a,
        Some(Chord { modifiers: mods(true, false, false, true), key: KeyCode::F5 })
    );
}

#[test]
fn parse_unknown_modifier_fails() {
    assert_eq!(parse("Meta+B"), None);
    assert_eq!(parse("Alt+Meta+B"), None);
}

#[test]
fn parse_unknown_key_fails() {
    assert_eq!(parse("Alt+Foo"), None);
    assert_eq!(parse("Hyper"), None);
}

#[test]
fn parse_empty_modifier_token_fails() {
    assert_eq!(parse("+Z"), None);
    assert_eq!(parse("Alt++Z"), None);
}

#[test]
fn parse_trailing_plus_fails() {
    // "Alt+" has an empty key token.
    assert_eq!(parse("Alt+"), None);
}

#[test]
fn parse_trims_whitespace_around_tokens() {
    assert_eq!(
        parse(" Alt + B "),
        Some(Chord { modifiers: mods(false, true, false, false), key: KeyCode::KeyB })
    );
}

#[test]
fn parse_is_case_sensitive() {
    assert_eq!(parse("alt+B"), None);
    assert_eq!(parse("Alt+b"), None);
}

#[test]
fn parse_cmd_and_super_both_map_to_super() {
    let via_cmd = parse("Cmd+Space").unwrap();
    let via_super = parse("Super+Space").unwrap();
    assert_eq!(via_cmd, via_super);
    assert!(via_cmd.modifiers.super_key);
    assert_eq!(via_cmd.key, KeyCode::Space);
}

#[test]
fn parse_all_modifiers_together() {
    assert_eq!(
        parse("Ctrl+Alt+Shift+Cmd+Delete"),
        Some(Chord { modifiers: mods(true, true, true, true), key: KeyCode::Delete })
    );
}

#[test]
fn parse_digits_function_and_named_keys() {
    assert_eq!(parse("7").unwrap().key, KeyCode::Digit7);
    assert_eq!(parse("F12").unwrap().key, KeyCode::F12);
    assert_eq!(parse("F13"), None);
    assert_eq!(parse("PageDown").unwrap().key, KeyCode::PageDown);
    assert_eq!(parse("Escape").unwrap().key, KeyCode::Escape);
}

#[test]
fn parse_modifier_alone_is_not_a_key() {
    // A lone modifier token is read as the key token, and no modifier names a key.
    assert_eq!(parse("Shift"), None);
}

#[test]
fn chord_equality_is_structural() {
    assert_eq!(parse("Alt+ArrowLeft"), parse(" Alt + ArrowLeft"));
    assert_ne!(parse("Alt+ArrowLeft"), parse("Alt+ArrowRight"));
}
