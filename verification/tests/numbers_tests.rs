use sorahk::numbers::{parse_hex_u16, parse_i32, parse_u32, parse_u64, parse_usize};
use sorahk::text::{find_char, split_at_char, str_starts_with};

const SAMPLES: &[&str] = &[
    "",
    "0",
    "7",
    "007",
    "+7",
    "+",
    "-",
    "-0",
    "-7",
    "+-7",
    " 7",
    "7 ",
    "1a",
    "١",
    "255",
    "256",
    "65535",
    "65536",
    "2147483647",
    "2147483648",
    "-2147483648",
    "-2147483649",
    "4294967295",
    "4294967296",
    "18446744073709551615",
    "18446744073709551616",
    "99999999999999999999999",
    "ff",
    "FF",
    "+1A",
    "ffff",
    "10000",
    "0x10",
    "g",
];

#[test]
fn decimal_parsing_matches_std() {
    for s in SAMPLES {
        assert_eq!(parse_u64(s), s.parse::<u64>().ok(), "u64 {s:?}");
        assert_eq!(parse_u32(s), s.parse::<u32>().ok(), "u32 {s:?}");
        assert_eq!(parse_usize(s), s.parse::<usize>().ok(), "usize {s:?}");
        assert_eq!(parse_i32(s), s.parse::<i32>().ok(), "i32 {s:?}");
    }
}

#[test]
fn hex_parsing_matches_std() {
    for s in SAMPLES {
        assert_eq!(parse_hex_u16(s), u16::from_str_radix(s, 16).ok(), "hex {s:?}");
    }
}

#[test]
fn decimal_parsing_values() {
    assert_eq!(parse_u64("+42"), Some(42));
    assert_eq!(parse_u64(""), None);
    assert_eq!(parse_i32("-2147483648"), Some(i32::MIN));
    assert_eq!(parse_i32("-2147483649"), None);
    assert_eq!(parse_hex_u16("045e"), Some(0x045E));
}

#[test]
fn split_matches_std() {
    for s in ["", ",", "a", "a,b", "a,,b,", " a , b ", "中,文"] {
        let expected: Vec<String> = s.split(',').map(|p| p.to_string()).collect();
        assert_eq!(split_at_char(s, ','), expected, "{s:?}");
    }
}

#[test]
fn find_and_prefix_match_std() {
    assert_eq!(find_char("045E:028E", ':'), Some(4));
    assert_eq!(find_char("中:", ':'), Some(1));
    assert_eq!(find_char("abc", ':'), None);
    assert!(str_starts_with("045E:028E:SN", "045E:028E"));
    assert!(!str_starts_with("045E:028", "045E:028E"));
    assert!(str_starts_with("x", ""));
}
