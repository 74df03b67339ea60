use test_common::decimal::{append_decimal, to_decimal};

#[test]
fn decimal_of_zero_is_single_digit() {
    assert_eq!(to_decimal(0), "0");
}

#[test]
fn decimal_of_single_digits() {
    for n in 0..10u64 {
        assert_eq!(to_decimal(n), format!("{}", n));
    }
}

#[test]
fn decimal_of_powers_of_ten() {
    assert_eq!(to_decimal(10), "10");
    assert_eq!(to_decimal(100), "100");
    assert_eq!(to_decimal(9_999), "9999");
    assert_eq!(to_decimal(10_000), "10000");
}

#[test]
fn decimal_of_port_numbers() {
    assert_eq!(to_decimal(9944), "9944");
    assert_eq!(to_decimal(30333), "30333");
    assert_eq!(to_decimal(u16::MAX as u64), "65535");
}

#[test]
fn decimal_of_largest_value() {
    assert_eq!(to_decimal(u64::MAX), "18446744073709551615");
}

#[test]
fn decimal_agrees_with_std_formatting() {
    let mut n: u64 = 1;
    while n < u64::MAX / 7 {
        assert_eq!(to_decimal(n), n.to_string());
        assert_eq!(to_decimal(n - 1), (n - 1).to_string());
        n = n * 7 + 3;
    }
}

#[test]
fn append_decimal_keeps_what_was_there() {
    let mut text = String::from("--port=");
    append_decimal(&mut text, 1234);
    assert_eq!(text, "--port=1234");
    append_decimal(&mut text, 0);
    assert_eq!(text, "--port=12340");
}
