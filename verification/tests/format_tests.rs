use rust_ms::format::{push_hex_fixed, to_decimal};

#[test]
fn decimal_of_zero() {
    assert_eq!(to_decimal(0), "0");
}

#[test]
fn decimal_of_port() {
    assert_eq!(to_decimal(8080), "8080");
}

#[test]
fn decimal_of_negative() {
    assert_eq!(to_decimal(-42), "-42");
}

#[test]
fn decimal_of_extremes() {
    assert_eq!(to_decimal(i64::MIN), "-9223372036854775808");
    assert_eq!(to_decimal(i64::MAX), "9223372036854775807");
}

#[test]
fn hex_is_zero_padded() {
    let mut s = String::from("0x");
    push_hex_fixed(&mut s, 0xab, 8);
    assert_eq!(s, "0x000000ab");
}

#[test]
fn hex_keeps_lowest_digits() {
    let mut s = String::new();
    push_hex_fixed(&mut s, 0x1234_5678_9abc, 4);
    assert_eq!(s, "9abc");
}

#[test]
fn decimal_reads_back() {
    for n in [0i64, 7, 10, 99, 100, 65535, 1_000_000_007, i64::MAX, -1, -65536, i64::MIN] {
        assert_eq!(to_decimal(n).parse::<i64>().unwrap(), n);
    }
}

#[test]
fn hex_reads_back() {
    for n in [0u64, 1, 0xf, 0x10, 0xffff, 0x1234] {
        let mut s = String::new();
        push_hex_fixed(&mut s, n, 8);
        assert_eq!(s.len(), 8);
        assert_eq!(u64::from_str_radix(&s, 16).unwrap(), n);
    }
}
