use aerowan::text::{
    byte_prefix, concat3, decimal_string, join_path, starts_with, trim, trim_end_matches_char,
    trim_start_matches,
};

#[test]
fn trimming() {
    assert_eq!(trim("  a b \n"), "a b");
    assert_eq!(trim("\u{3000}x\u{a0}"), "x");
    assert_eq!(trim(""), "");
    assert_eq!(trim(" \t "), "");
    assert_eq!(trim_start_matches("NodeID:NodeID: x", "NodeID:"), " x");
    assert_eq!(trim_end_matches_char("host:::", ':'), "host");
}

#[test]
fn prefixes_and_numbers() {
    assert!(starts_with("NodeID: x", "NodeID:"));
    assert!(!starts_with("Node", "NodeID:"));
    assert!(starts_with("abc", ""));
    assert_eq!(decimal_string(0), "0");
    assert_eq!(decimal_string(37430), "37430");
    assert_eq!(decimal_string(u64::MAX), "18446744073709551615");
    assert_eq!(byte_prefix("h\u{e9}llo", 3), "h\u{e9}");
    assert_eq!(join_path(b"", "x"), b"x".to_vec());
    assert_eq!(join_path(b"/a", "b/c"), b"/a/b/c".to_vec());
    assert_eq!(join_path(b"/a/", "b"), b"/a/b".to_vec());
    assert_eq!(join_path(&[0x2f, 0xff], "c"), vec![0x2f, 0xff, b'/', b'c']);
    assert_eq!(concat3("a", "b", "c"), "abc");
}
