use mihomo_api::text::{push_decimal, push_decimal_digits, push_hex};

fn decimal_of(n: i32) -> String {
    let mut text = String::new();
    push_decimal(&mut text, n);
    text
}

fn hex_of(bytes: &[u8]) -> String {
    let mut text = String::new();
    push_hex(&mut text, bytes);
    text
}

#[test]
fn decimal_of_zero_is_one_digit() {
    assert_eq!(decimal_of(0), "0");
}

#[test]
fn decimal_of_small_numbers() {
    assert_eq!(decimal_of(7), "7");
    assert_eq!(decimal_of(9), "9");
    assert_eq!(decimal_of(10), "10");
    assert_eq!(decimal_of(11), "11");
    assert_eq!(decimal_of(99), "99");
    assert_eq!(decimal_of(100), "100");
    assert_eq!(decimal_of(5000), "5000");
    assert_eq!(decimal_of(10203), "10203");
}

#[test]
fn decimal_of_negative_numbers_has_a_sign() {
    assert_eq!(decimal_of(-1), "-1");
    assert_eq!(decimal_of(-10), "-10");
    assert_eq!(decimal_of(-5000), "-5000");
}

#[test]
fn decimal_of_the_extremes() {
    assert_eq!(decimal_of(i32::MAX), "2147483647");
    assert_eq!(decimal_of(i32::MIN), "-2147483648");
}

#[test]
fn decimal_agrees_with_the_standard_formatting() {
    let samples = [
        0, 1, -1, 9, 10, 19, 20, 101, 999, 1000, 1001, 65535, 65536, 123456789, -123456789,
        1000000000, -1000000000, i32::MAX, i32::MIN, i32::MAX - 1, i32::MIN + 1,
    ];
    for n in samples {
        assert_eq!(decimal_of(n), format!("{}", n));
    }
}

#[test]
fn decimal_is_appended_to_what_is_there() {
    let mut text = String::from("&timeout=");
    push_decimal(&mut text, 250);
    assert_eq!(text, "&timeout=250");
}

#[test]
fn decimal_digits_of_the_largest_unsigned() {
    let mut text = String::new();
    push_decimal_digits(&mut text, u32::MAX);
    assert_eq!(text, "4294967295");
    let mut zero = String::new();
    push_decimal_digits(&mut zero, 0);
    assert_eq!(zero, "0");
}

#[test]
fn hex_of_nothing_is_empty() {
    assert_eq!(hex_of(&[]), "");
}

#[test]
fn hex_writes_two_lower_case_digits_per_byte() {
    assert_eq!(hex_of(&[0x00]), "00");
    assert_eq!(hex_of(&[0x0f]), "0f");
    assert_eq!(hex_of(&[0xf0]), "f0");
    assert_eq!(hex_of(&[0x00, 0x0f, 0xa5, 0xff]), "000fa5ff");
    assert_eq!(hex_of(&[0x01, 0x23, 0x45, 0x67, 0x89, 0xab, 0xcd, 0xef]), "0123456789abcdef");
}

#[test]
fn hex_of_a_socket_name() {
    assert_eq!(hex_of("foo.sock".as_bytes()), "666f6f2e736f636b");
}

#[test]
fn hex_of_every_byte() {
    for byte in 0..=255u8 {
        assert_eq!(hex_of(&[byte]), format!("{:02x}", byte));
    }
}

#[test]
fn hex_is_appended_to_what_is_there() {
    let mut text = String::from("unix://");
    push_hex(&mut text, &[0x2f, 0x61]);
    assert_eq!(text, "unix://2f61");
}
