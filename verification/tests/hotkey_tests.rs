use sorahk::hotkey::{poll_combo, switch_key_names, SwitchKeyNames, MOD_ALT, MOD_CTRL, MOD_SHIFT};

#[test]
fn switch_key_reading() {
    assert!(matches!(switch_key_names(""), SwitchKeyNames::Unset));
    match switch_key_names("DELETE") {
        SwitchKeyNames::Single(name) => assert_eq!(name, "DELETE"),
        other => panic!("unexpected {other:?}"),
    }
    match switch_key_names("lctrl + Shift+ a ") {
        SwitchKeyNames::Combo { modifiers, keys } => {
            assert_eq!(modifiers, MOD_CTRL | MOD_SHIFT);
            assert_eq!(keys, vec!["a".to_string()]);
        }
        other => panic!("unexpected {other:?}"),
    }
    match switch_key_names("RALT+F1+F2") {
        SwitchKeyNames::Combo { modifiers, keys } => {
            assert_eq!(modifiers, MOD_ALT);
            assert_eq!(keys, vec!["F1".to_string(), "F2".to_string()]);
        }
        other => panic!("unexpected {other:?}"),
    }
}

#[test]
fn combo_fires_once_when_all_keys_are_down() {
    let keys = [0x41u32, 0x42];
    // modifier missing: nothing happens
    assert_eq!(poll_combo(0, MOD_CTRL, false, false, false, &keys, &[true, true]), (0, false));
    // A pressed first, B still up
    let (s1, fired1) = poll_combo(0, MOD_CTRL, true, false, false, &keys, &[true, false]);
    assert!(!fired1);
    // B joins: the combo fires
    let (s2, fired2) = poll_combo(s1, MOD_CTRL, true, false, false, &keys, &[true, true]);
    assert!(fired2);
    // held: no second toggle
    let (s3, fired3) = poll_combo(s2, MOD_CTRL, true, false, false, &keys, &[true, true]);
    assert!(!fired3);
    assert_eq!(s3, s2);
    // released: bits cleared
    let (s4, fired4) = poll_combo(s3, MOD_CTRL, true, false, false, &keys, &[false, false]);
    assert!(!fired4);
    assert_eq!(s4, 0);
}
