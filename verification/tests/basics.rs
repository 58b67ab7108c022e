use rustcommon::decimal::{signed_text, unsigned_text};

#[test]
fn it_works() {
    assert_eq!(2 + 2, 4);
}

#[test]
fn unsigned_text_renders_decimal() {
    assert_eq!(unsigned_text(0), "0");
    assert_eq!(unsigned_text(7), "7");
    assert_eq!(unsigned_text(300), "300");
    assert_eq!(unsigned_text(u64::MAX), "18446744073709551615");
}

#[test]
fn signed_text_renders_decimal() {
    assert_eq!(signed_text(0), "0");
    assert_eq!(signed_text(-1), "-1");
    assert_eq!(signed_text(42), "42");
    assert_eq!(signed_text(i64::MIN), "-9223372036854775808");
    assert_eq!(signed_text(i64::MAX), "9223372036854775807");
}
