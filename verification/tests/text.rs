use buildkite_waiter::text::{decimal_string, parse_u32, split_from, str_eq, to_ascii_lowercase};

#[test]
fn decimal_forms() {
    assert_eq!(decimal_string(0), "0");
    assert_eq!(decimal_string(7), "7");
    assert_eq!(decimal_string(87), "87");
    assert_eq!(decimal_string(1000), "1000");
    assert_eq!(decimal_string(u64::MAX), "18446744073709551615");
}

#[test]
fn parse_accepts_what_std_accepts() {
    assert_eq!(parse_u32("87"), Some(87));
    assert_eq!(parse_u32("+5"), Some(5));
    assert_eq!(parse_u32("007"), Some(7));
    assert_eq!(parse_u32("4294967295"), Some(u32::MAX));
    for s in ["", "+", "-1", "12a", "4294967296", " 1", "99999999999"] {
        assert_eq!(parse_u32(s), s.parse::<u32>().ok(), "{:?}", s);
    }
    for s in ["0", "1", "65535", "+0", "42"] {
        assert_eq!(parse_u32(s), s.parse::<u32>().ok(), "{:?}", s);
    }
}

#[test]
fn parse_reads_back_decimal() {
    for n in [0u32, 1, 9, 10, 99, 100, 123456, u32::MAX] {
        assert_eq!(parse_u32(&decimal_string(n as u64)), Some(n));
    }
}

#[test]
fn lowercase_only_touches_ascii_capitals() {
    assert_eq!(to_ascii_lowercase("Not Run"), "not run");
    assert_eq!(to_ascii_lowercase("ÄBC-Z"), "Äbc-z");
}

#[test]
fn split_matches_std() {
    for s in ["", "a", "a/b", "/a//b/", "x/y/z"] {
        let ours = split_from(s, 0, '/');
        let theirs: Vec<String> = s.split('/').map(|p| p.to_string()).collect();
        assert_eq!(ours, theirs);
    }
    assert_eq!(split_from("/a/b", 1, '/'), vec!["a".to_string(), "b".to_string()]);
}

#[test]
fn string_equality() {
    assert!(str_eq("builds", "builds"));
    assert!(!str_eq("builds", "build"));
    assert!(!str_eq("abc", "abd"));
}
