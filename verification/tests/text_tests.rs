use orc_view::text::{i64_text, push_digits, push_int, push_padded, push_text, u64_text};

#[test]
fn unsigned_integers_are_written_in_decimal() {
    assert_eq!(u64_text(0), "0");
    assert_eq!(u64_text(7), "7");
    assert_eq!(u64_text(10), "10");
    assert_eq!(u64_text(120), "120");
    assert_eq!(u64_text(u64::MAX), "18446744073709551615");
}

#[test]
fn signed_integers_are_written_with_their_sign() {
    assert_eq!(i64_text(0), "0");
    assert_eq!(i64_text(-7), "-7");
    assert_eq!(i64_text(42), "42");
    assert_eq!(i64_text(i64::MAX), "9223372036854775807");
    assert_eq!(i64_text(i64::MIN), "-9223372036854775808");
}

#[test]
fn integers_are_written_without_grouping() {
    let text = i64_text(-1234567890123);
    assert_eq!(text, "-1234567890123");
    assert!(text.chars().skip(1).all(|c| c.is_ascii_digit()));
    assert_eq!(u64_text(1000000), "1000000");
}

#[test]
fn digits_are_appended_to_what_is_there() {
    let mut out = String::from("n=");
    push_digits(&mut out, 340282366920938463463374607431768211455u128);
    assert_eq!(out, "n=340282366920938463463374607431768211455");
    push_text(&mut out, ";");
    push_int(&mut out, -15);
    assert_eq!(out, "n=340282366920938463463374607431768211455;-15");
}

#[test]
fn padding_fills_with_zeros_on_the_left() {
    let mut out = String::new();
    push_padded(&mut out, 7, 2);
    assert_eq!(out, "07");
    let mut out = String::new();
    push_padded(&mut out, 0, 4);
    assert_eq!(out, "0000");
    let mut out = String::new();
    push_padded(&mut out, 1970, 4);
    assert_eq!(out, "1970");
    let mut out = String::new();
    push_padded(&mut out, 12345, 4);
    assert_eq!(out, "12345");
    let mut out = String::new();
    push_padded(&mut out, 5, 0);
    assert_eq!(out, "5");
}
