use cacsi_driver::text::{is_dns_name, parse_i64, split, trim};

#[test]
fn parse_i64_reads_decimal_integers() {
    assert_eq!(parse_i64("7"), Some(7));
    assert_eq!(parse_i64("+12"), Some(12));
    assert_eq!(parse_i64("-3"), Some(-3));
    assert_eq!(parse_i64("0"), Some(0));
    assert_eq!(parse_i64("9223372036854775807"), Some(i64::MAX));
    assert_eq!(parse_i64("-9223372036854775808"), Some(i64::MIN));
}

#[test]
fn parse_i64_rejects_malformed_text() {
    assert_eq!(parse_i64("abc"), None);
    assert_eq!(parse_i64(""), None);
    assert_eq!(parse_i64("-"), None);
    assert_eq!(parse_i64(" 7"), None);
    assert_eq!(parse_i64("7d"), None);
    assert_eq!(parse_i64("9223372036854775808"), None);
    assert_eq!(parse_i64("-9223372036854775809"), None);
}

#[test]
fn trim_drops_surrounding_white_space() {
    assert_eq!(trim("  a b \t"), "a b");
    assert_eq!(trim("   "), "");
    assert_eq!(trim("\u{3000}x\u{a0}"), "x");
}

#[test]
fn split_gives_one_more_piece_than_separators() {
    assert_eq!(split("a,b,,c", ','), vec!["a", "b", "", "c"]);
    assert_eq!(split("", ','), vec![""]);
    assert_eq!(split(",", ','), vec!["", ""]);
}

#[test]
fn dns_names_are_checked_label_by_label() {
    assert!(is_dns_name("web-0"));
    assert!(is_dns_name("b.example"));
    assert!(is_dns_name("A1.b-2.c"));
    assert!(!is_dns_name(""));
    assert!(!is_dns_name("bad_label"));
    assert!(!is_dns_name("-a"));
    assert!(!is_dns_name("a-"));
    assert!(!is_dns_name("a..b"));
    assert!(!is_dns_name("a."));
    assert!(!is_dns_name("bär"));
    assert!(!is_dns_name(&"x".repeat(64)));
    assert!(is_dns_name(&"x".repeat(63)));
}
