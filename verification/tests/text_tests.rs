use nextbus::events::{find_attr, Attr};
use nextbus::text::{check_numeric, parse_bool, parse_usize, usize_to_string};

#[test]
fn parses_unsigned_integers_exactly() {
    assert_eq!(parse_usize("0"), Some(0));
    assert_eq!(parse_usize("1457453600000"), Some(1457453600000));
    assert_eq!(parse_usize("+42"), Some(42));
    assert_eq!(parse_usize(""), None);
    assert_eq!(parse_usize("+"), None);
    assert_eq!(parse_usize("-1"), None);
    assert_eq!(parse_usize("12a"), None);
    assert_eq!(parse_usize(" 12"), None);
    // one past the largest value overflows
    assert_eq!(parse_usize("18446744073709551615"), Some(usize::MAX));
    assert_eq!(parse_usize("18446744073709551616"), None);
}

#[test]
fn parses_booleans_exactly() {
    assert_eq!(parse_bool("true"), Some(true));
    assert_eq!(parse_bool("false"), Some(false));
    assert_eq!(parse_bool("True"), None);
    assert_eq!(parse_bool("1"), None);
    assert_eq!(parse_bool(""), None);
}

#[test]
fn checks_numeric_texts_exactly() {
    assert!(check_numeric("0"));
    assert!(check_numeric("42.3601"));
    assert!(check_numeric("-71.0589"));
    assert!(check_numeric("+7"));
    assert!(check_numeric("-0.5"));
    // the grammar also takes bare dots with one-sided digits,
    // exponents, and the keywords, in any letter case
    assert!(check_numeric("1."));
    assert!(check_numeric(".5"));
    assert!(check_numeric("1e3"));
    assert!(check_numeric("2.5E-3"));
    assert!(check_numeric("1.e2"));
    assert!(check_numeric("inf"));
    assert!(check_numeric("-Infinity"));
    assert!(check_numeric("NaN"));
    assert!(!check_numeric(""));
    assert!(!check_numeric("-"));
    assert!(!check_numeric("."));
    assert!(!check_numeric(".e3"));
    assert!(!check_numeric("1.2.3"));
    assert!(!check_numeric("1e"));
    assert!(!check_numeric("e5"));
    assert!(!check_numeric("abc"));
    assert!(!check_numeric("--1"));
    assert!(!check_numeric("in"));
    assert!(!check_numeric("information"));
}

#[test]
fn writes_numbers_as_decimal_text() {
    assert_eq!(usize_to_string(0), "0");
    assert_eq!(usize_to_string(7), "7");
    assert_eq!(usize_to_string(10), "10");
    assert_eq!(usize_to_string(1457), "1457");
    assert_eq!(usize_to_string(usize::MAX), "18446744073709551615");
}

fn attr(name: &str, value: &str) -> Attr {
    Attr { name: name.to_string(), value: value.to_string() }
}

// When an attribute name repeats, the later occurrence wins, just as
// an in-order walk overwriting its scratch record would behave.
#[test]
fn attribute_lookup_takes_the_last_occurrence() {
    let attrs = vec![attr("tag", "first"), attr("title", "T"), attr("tag", "second")];
    assert_eq!(find_attr(&attrs, "tag"), Some("second".to_string()));
    assert_eq!(find_attr(&attrs, "title"), Some("T".to_string()));
    assert_eq!(find_attr(&attrs, "missing"), None);
    assert_eq!(find_attr(&vec![], "tag"), None);
}
