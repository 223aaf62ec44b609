use sorahk::hotkey::{modifiers_held, poll_key, vk_to_bit};
use sorahk::text::{decimal_string, sorted_unique, str_equal, str_less};

#[test]
fn decimal_rendering() {
    assert_eq!(decimal_string(0), "0");
    assert_eq!(decimal_string(7), "7");
    assert_eq!(decimal_string(10), "10");
    assert_eq!(decimal_string(7849), "7849");
    assert_eq!(decimal_string(u64::MAX), u64::MAX.to_string());
}

#[test]
fn string_order_matches_std() {
    let words = ["", "a", "ab", "b", "B", "é", "中", "app-name", "app_name", "app123"];
    for a in words {
        for b in words {
            assert_eq!(str_less(a, b), a < b, "{a} < {b}");
            assert_eq!(str_equal(a, b), a == b);
        }
    }
}

#[test]
fn sorted_unique_matches_sort_dedup() {
    let input: Vec<String> = ["pear", "apple", "pear", "Zebra", "apple", "fig"]
        .iter()
        .map(|s| s.to_string())
        .collect();
    let mut expected = input.clone();
    expected.sort();
    expected.dedup();
    assert_eq!(sorted_unique(input), expected);
}

#[test]
fn key_polling_fires_on_press_edge() {
    assert_eq!(vk_to_bit(0x41), 1 << 1);
    assert_eq!(vk_to_bit(0x10), 1);
    let (state, fired) = poll_key(0, 0x41, true);
    assert!(fired);
    let (state, fired) = poll_key(state, 0x41, true);
    assert!(!fired);
    let (state, fired) = poll_key(state, 0x41, false);
    assert!(!fired);
    assert_eq!(state, 0);
    let (_, fired) = poll_key(state, 0x41, true);
    assert!(fired);
}

#[test]
fn modifier_requirements() {
    assert!(modifiers_held(0, false, false, false));
    assert!(modifiers_held(0b011, true, true, false));
    assert!(!modifiers_held(0b100, true, true, false));
}
