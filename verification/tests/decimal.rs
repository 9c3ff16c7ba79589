use job_core::decimal::to_decimal;

#[test]
fn zero_is_a_single_digit() {
    assert_eq!(to_decimal(0), "0");
}

#[test]
fn single_digits() {
    for value in 0..10 {
        assert_eq!(to_decimal(value), format!("{}", value));
    }
}

#[test]
fn positive_numbers() {
    assert_eq!(to_decimal(10), "10");
    assert_eq!(to_decimal(42), "42");
    assert_eq!(to_decimal(100), "100");
    assert_eq!(to_decimal(1009), "1009");
    assert_eq!(to_decimal(i32::MAX), "2147483647");
}

#[test]
fn negative_numbers() {
    assert_eq!(to_decimal(-1), "-1");
    assert_eq!(to_decimal(-10), "-10");
    assert_eq!(to_decimal(-907), "-907");
    assert_eq!(to_decimal(i32::MIN), "-2147483648");
}

#[test]
fn decimal_text_agrees_with_the_standard_formatting() {
    let samples = [
        0, 1, -1, 9, 10, 11, 99, 100, 101, 999, 1000, 12345, -12345, 65535, 65536, -65536,
        1_000_000, 2_000_000_000, -2_000_000_000, i32::MAX, i32::MIN, i32::MIN + 1,
    ];
    for value in samples {
        assert_eq!(to_decimal(value), format!("{}", value));
    }
}
