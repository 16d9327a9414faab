use panel_core::keys::{KeyCode, ModifierSet};
use panel_core::registry::{BindingError, ShortcutRegistry, Trigger};

fn names(list: &[&str]) -> Vec<String> {
    list.iter().map(|s| s.to_string()).collect()
}

fn mods(alt: bool, control: bool, shift: bool, meta: bool) -> Option<ModifierSet> {
    Some(ModifierSet { alt, control, shift, meta })
}

#[test]
fn fresh_registry_reports_default_binding() {
    let reg = ShortcutRegistry::new();
    assert_eq!(reg.get_shortcut(), (names(&["Alt"]), "M".to_string()));
    assert_eq!(reg.active_trigger(), None);
}

#[test]
fn first_binding_releases_nothing() {
    let reg = ShortcutRegistry::new();
    let rb = reg.begin_rebind(names(&["Shift"]), "K".to_string()).unwrap();
    assert_eq!(rb.release, None);
    assert_eq!(rb.claim, Trigger { modifiers: mods(false, false, true, false), code: KeyCode::Letter('K') });
}

#[test]
fn fresh_install_rebind_to_shift_k() {
    let mut reg = ShortcutRegistry::new();
    assert_eq!(reg.get_shortcut(), (names(&["Alt"]), "M".to_string()));
    let rb = reg.begin_rebind(names(&["Shift"]), "K".to_string()).unwrap();
    let shown = reg.finish_rebind(rb, Ok(())).unwrap();
    assert_eq!(shown, "\u{21E7}K");
    assert_eq!(reg.get_shortcut(), (names(&["Shift"]), "K".to_string()));
}

#[test]
fn second_rebind_supersedes_first() {
    let mut reg = ShortcutRegistry::new();
    let rb1 = reg.begin_rebind(names(&["Alt"]), "m".to_string()).unwrap();
    let first = rb1.claim;
    reg.finish_rebind(rb1, Ok(())).unwrap();
    let rb2 = reg.begin_rebind(names(&["ctrl", "shift"]), "F5".to_string()).unwrap();
    assert_eq!(rb2.release, Some(first));
    let second = rb2.claim;
    assert_eq!(reg.finish_rebind(rb2, Ok(())).unwrap(), "\u{2303}\u{21E7}F5");
    assert_eq!(reg.active_trigger(), Some(second));
    assert_eq!(second, Trigger { modifiers: mods(false, true, true, false), code: KeyCode::Function(5) });
    assert_eq!(reg.get_shortcut(), (names(&["ctrl", "shift"]), "F5".to_string()));
}

#[test]
fn refused_registration_leaves_no_binding() {
    let mut reg = ShortcutRegistry::new();
    let rb1 = reg.begin_rebind(names(&["Alt"]), "M".to_string()).unwrap();
    reg.finish_rebind(rb1, Ok(())).unwrap();
    let rb2 = reg.begin_rebind(names(&["Meta"]), "Space".to_string()).unwrap();
    match reg.finish_rebind(rb2, Err("already taken".to_string())) {
        Err(BindingError::RegistrationFailed(reason)) => assert_eq!(reason, "already taken"),
        other => panic!("unexpected {:?}", other),
    }
    assert_eq!(reg.active_trigger(), None);
    assert_eq!(reg.get_shortcut(), (names(&["Alt"]), "M".to_string()));
    let rb3 = reg.begin_rebind(names(&["Meta"]), "Tab".to_string()).unwrap();
    assert_eq!(rb3.release, None);
}

#[test]
fn unknown_key_is_rejected_without_change() {
    let mut reg = ShortcutRegistry::new();
    let rb = reg.begin_rebind(names(&["Shift"]), "K".to_string()).unwrap();
    reg.finish_rebind(rb, Ok(())).unwrap();
    let before = reg.active_trigger();
    match reg.begin_rebind(names(&["Alt"]), "Backspace".to_string()) {
        Err(BindingError::InvalidKey(k)) => assert_eq!(k, "Backspace"),
        Err(e) => panic!("unexpected {:?}", e),
        Ok(_) => panic!("accepted an unknown key"),
    }
    assert_eq!(reg.active_trigger(), before);
    assert_eq!(reg.get_shortcut(), (names(&["Shift"]), "K".to_string()));
}

#[test]
fn empty_modifier_list_claims_no_modifiers() {
    let reg = ShortcutRegistry::new();
    let rb = reg.begin_rebind(Vec::new(), "f12".to_string()).unwrap();
    assert_eq!(rb.claim, Trigger { modifiers: None, code: KeyCode::Function(12) });
}
