use rsbar_img::text::{append_bytes, append_decimal, append_signed_decimal, append_text};

fn decimal_of(n: u128) -> String {
    let mut out = Vec::new();
    append_decimal(&mut out, n);
    String::from_utf8(out).unwrap()
}

fn signed_decimal_of(i: i32) -> String {
    let mut out = Vec::new();
    append_signed_decimal(&mut out, i);
    String::from_utf8(out).unwrap()
}

#[test]
fn decimal_of_single_digits() {
    assert_eq!(decimal_of(0), "0");
    assert_eq!(decimal_of(7), "7");
    assert_eq!(decimal_of(9), "9");
}

#[test]
fn decimal_of_longer_numbers() {
    assert_eq!(decimal_of(10), "10");
    assert_eq!(decimal_of(98), "98");
    assert_eq!(decimal_of(100), "100");
    assert_eq!(decimal_of(1_000_000), "1000000");
    assert_eq!(decimal_of(u64::MAX as u128), "18446744073709551615");
    assert_eq!(decimal_of(u128::MAX), "340282366920938463463374607431768211455");
}

#[test]
fn decimal_agrees_with_the_standard_notation() {
    for n in [0u128, 1, 9, 10, 11, 99, 101, 4095, 65536, 9_999_999_999] {
        assert_eq!(decimal_of(n), format!("{}", n));
    }
}

#[test]
fn signed_decimal_of_both_signs() {
    assert_eq!(signed_decimal_of(0), "0");
    assert_eq!(signed_decimal_of(98), "98");
    assert_eq!(signed_decimal_of(-1), "-1");
    assert_eq!(signed_decimal_of(-120), "-120");
    assert_eq!(signed_decimal_of(i32::MAX), "2147483647");
    assert_eq!(signed_decimal_of(i32::MIN), "-2147483648");
}

#[test]
fn appending_keeps_what_was_there() {
    let mut out = vec![1u8, 2];
    append_bytes(&mut out, &[3, 4]);
    append_bytes(&mut out, &[]);
    append_text(&mut out, "\u{e9}!");
    append_decimal(&mut out, 42);
    assert_eq!(out, vec![1, 2, 3, 4, 0xc3, 0xa9, b'!', b'4', b'2']);
}
