use blog_project::text::{decimal, push_json_string, read_json_string, read_u64};

#[test]
fn decimals() {
    assert_eq!(decimal(0), "0");
    assert_eq!(decimal(7), "7");
    assert_eq!(decimal(10), "10");
    assert_eq!(decimal(1234567890), "1234567890");
    assert_eq!(decimal(u64::MAX), "18446744073709551615");
}

#[test]
fn json_strings() {
    let mut s = String::new();
    push_json_string(&mut s, "a\"b\\c\u{8}\u{c}\n\r\t\u{0}\u{7f}é");
    assert_eq!(s, "\"a\\\"b\\\\c\\b\\f\\n\\r\\t\\u0000\u{7f}é\"");
    let mut t = String::new();
    push_json_string(&mut t, "");
    assert_eq!(t, "\"\"");
}

#[test]
fn json_strings_read_back() {
    let (v, end) = read_json_string("\"a\\\"b\\u001fc\\/\"tail", 1).unwrap();
    assert_eq!(v, "a\"b\u{1f}c/");
    assert_eq!(end, 15);
    assert!(read_json_string("\"abc", 1).is_none());
    assert!(read_json_string("\"a\\q\"", 1).is_none());
}

#[test]
fn numbers_read_back() {
    assert_eq!(read_u64("x123,", 1), Some((123, 4)));
    assert_eq!(read_u64("18446744073709551615", 0), Some((u64::MAX, 20)));
    assert_eq!(read_u64("18446744073709551616", 0), None);
    assert_eq!(read_u64("abc", 0), None);
    assert_eq!(read_u64("", 0), None);
}
