use udev::util;
use udev::ErrorKind;

#[test]
fn to_c_bytes_appends_one_nul() {
    let v = util::to_c_bytes("ab").unwrap();
    assert_eq!(v, vec![97u8, 98u8, 0u8]);
    let v = util::to_c_bytes("").unwrap();
    assert_eq!(v, vec![0u8]);
}

#[test]
fn to_c_bytes_rejects_interior_nul() {
    let e = util::to_c_bytes("a\0b").unwrap_err();
    assert_eq!(e.kind(), ErrorKind::InvalidInput);
    let e = util::to_c_bytes("\0").unwrap_err();
    assert_eq!(e.kind(), ErrorKind::InvalidInput);
}

#[test]
fn str_eq_decides_equality() {
    assert!(util::str_eq("", ""));
    assert!(util::str_eq("tty0", "tty0"));
    assert!(!util::str_eq("tty0", "tty1"));
    assert!(!util::str_eq("tty", "tty0"));
    assert!(util::str_eq("müsli", "müsli"));
    assert!(!util::str_eq("müsli", "musli"));
}

#[test]
fn parse_usize_reads_plain_numerals() {
    assert_eq!(util::parse_usize("0"), Some(0));
    assert_eq!(util::parse_usize("12"), Some(12));
    assert_eq!(util::parse_usize("007"), Some(7));
    assert_eq!(util::parse_usize("+5"), Some(5));
}

#[test]
fn parse_usize_rejects_non_numerals() {
    assert_eq!(util::parse_usize(""), None);
    assert_eq!(util::parse_usize("+"), None);
    assert_eq!(util::parse_usize("++1"), None);
    assert_eq!(util::parse_usize("x12"), None);
    assert_eq!(util::parse_usize("12x"), None);
    assert_eq!(util::parse_usize("1 2"), None);
    assert_eq!(util::parse_usize("-3"), None);
}

#[test]
fn parse_usize_handles_the_largest_value() {
    let max = usize::MAX.to_string();
    assert_eq!(util::parse_usize(&max), Some(usize::MAX));
    assert_eq!(util::parse_usize("99999999999999999999999999"), None);
}
