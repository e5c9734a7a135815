use walkley_usb::text::{
    emit, push_decimal, push_decimal_padded, push_hex, push_hex_padded, push_signed,
};

fn decimal(n: u64) -> String {
    let mut out = String::new();
    push_decimal(&mut out, n);
    out
}

fn signed(n: i64) -> String {
    let mut out = String::new();
    push_signed(&mut out, n);
    out
}

fn hex(n: u64) -> String {
    let mut out = String::new();
    push_hex(&mut out, n);
    out
}

fn decimal_padded(n: u64, width: usize) -> String {
    let mut out = String::new();
    push_decimal_padded(&mut out, n, width);
    out
}

fn hex_padded(n: u64, width: usize) -> String {
    let mut out = String::new();
    push_hex_padded(&mut out, n, width);
    out
}

#[test]
fn decimal_digits() {
    assert_eq!(decimal(0), "0");
    assert_eq!(decimal(7), "7");
    assert_eq!(decimal(9), "9");
    assert_eq!(decimal(10), "10");
    assert_eq!(decimal(42), "42");
    assert_eq!(decimal(255), "255");
    assert_eq!(decimal(1000), "1000");
    assert_eq!(decimal(u64::MAX), "18446744073709551615");
}

#[test]
fn decimal_agrees_with_std() {
    let mut n: u64 = 1;
    for _ in 0..64 {
        assert_eq!(decimal(n), n.to_string());
        assert_eq!(decimal(n - 1), (n - 1).to_string());
        n = n.wrapping_mul(2);
    }
    for n in 0u64..2000 {
        assert_eq!(decimal(n), n.to_string());
    }
}

#[test]
fn decimal_is_appended() {
    let mut out = String::from("Len ");
    push_decimal(&mut out, 18);
    assert_eq!(out, "Len 18");
    push_decimal(&mut out, 0);
    assert_eq!(out, "Len 180");
}

#[test]
fn signed_digits() {
    assert_eq!(signed(0), "0");
    assert_eq!(signed(5), "5");
    assert_eq!(signed(-1), "-1");
    assert_eq!(signed(-99), "-99");
    assert_eq!(signed(i64::MAX), "9223372036854775807");
    assert_eq!(signed(i64::MIN), "-9223372036854775808");
    assert_eq!(signed(i32::MIN as i64), "-2147483648");
}

#[test]
fn hex_digits() {
    assert_eq!(hex(0), "0");
    assert_eq!(hex(9), "9");
    assert_eq!(hex(10), "a");
    assert_eq!(hex(15), "f");
    assert_eq!(hex(16), "10");
    assert_eq!(hex(0x1234), "1234");
    assert_eq!(hex(0xabcdef), "abcdef");
    assert_eq!(hex(u64::MAX), "ffffffffffffffff");
}

#[test]
fn padding_with_zeros() {
    assert_eq!(decimal_padded(1, 3), "001");
    assert_eq!(decimal_padded(0, 3), "000");
    assert_eq!(decimal_padded(42, 3), "042");
    assert_eq!(decimal_padded(255, 3), "255");
    assert_eq!(decimal_padded(1234, 3), "1234");
    assert_eq!(decimal_padded(7, 0), "7");
    assert_eq!(decimal_padded(7, 1), "7");
    assert_eq!(hex_padded(0, 4), "0000");
    assert_eq!(hex_padded(0x5678, 4), "5678");
    assert_eq!(hex_padded(0xab, 4), "00ab");
    assert_eq!(hex_padded(0x12345, 4), "12345");
}

#[test]
fn padding_agrees_with_std() {
    for n in 0u64..=255 {
        assert_eq!(decimal_padded(n, 3), format!("{:03}", n));
    }
    for n in [0u64, 1, 0xf, 0x10, 0xff, 0x100, 0xfff, 0x1000, 0x1234, 0xffff] {
        assert_eq!(hex_padded(n, 4), format!("{:04x}", n));
    }
}

#[test]
fn emitted_lines_keep_their_order() {
    let mut out: Vec<String> = Vec::new();
    emit(&mut out, String::from("first"));
    emit(&mut out, String::from("second"));
    assert_eq!(out, vec![String::from("first"), String::from("second")]);
}
