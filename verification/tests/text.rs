use bcd_dump::text::{decimal_string, parse_hex_u32, str_eq, utf16_string};

#[test]
fn decimal_matches_to_string() {
    for n in [0u32, 7, 10, 194, 1000, 65535, 0x00FF_FFFF, u32::MAX] {
        assert_eq!(decimal_string(n), n.to_string());
    }
}

#[test]
fn hex_parse_matches_from_str_radix() {
    let cases = [
        "250000c2", "250000C2", "+11000001", "0", "ffffffff", "100000000", "", "+", "-1", "12g4",
        " 12", "0x12", "00000000000000000001",
    ];
    for s in cases {
        assert_eq!(parse_hex_u32(s), u32::from_str_radix(s, 16).ok(), "{}", s);
    }
}

#[test]
fn str_eq_compares_characters() {
    assert!(str_eq("abc", "abc"));
    assert!(!str_eq("abc", "abd"));
    assert!(!str_eq("abc", "ab"));
    assert!(str_eq("", ""));
}

#[test]
fn utf16_reads_little_endian_units() {
    assert_eq!(utf16_string(&[0x48, 0x00, 0x69, 0x00]), Some("Hi".to_string()));
    assert_eq!(utf16_string(&[0x48, 0x00, 0x69]), Some("H".to_string()));
    assert_eq!(utf16_string(&[0x00, 0xD8]), None);
    assert_eq!(utf16_string(&[0x3D, 0xD8, 0x00, 0xDE]), Some("\u{1F600}".to_string()));
}
