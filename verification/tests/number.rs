use console_report::number::{binary_text, decimal_text, push_decimal, push_unsigned, unsigned_text};

#[test]
fn decimal_of_small_numbers() {
    assert_eq!(decimal_text(0), "0");
    assert_eq!(decimal_text(7), "7");
    assert_eq!(decimal_text(9), "9");
    assert_eq!(decimal_text(10), "10");
    assert_eq!(decimal_text(12), "12");
    assert_eq!(decimal_text(31), "31");
    assert_eq!(decimal_text(100), "100");
    assert_eq!(decimal_text(4294967296), "4294967296");
}

#[test]
fn decimal_of_negative_numbers() {
    assert_eq!(decimal_text(-1), "-1");
    assert_eq!(decimal_text(-10), "-10");
    assert_eq!(decimal_text(-300), "-300");
}

#[test]
fn decimal_at_the_ends_of_the_range() {
    assert_eq!(decimal_text(i64::MAX), "9223372036854775807");
    assert_eq!(decimal_text(i64::MIN), "-9223372036854775808");
    assert_eq!(unsigned_text(u64::MAX), "18446744073709551615");
    assert_eq!(unsigned_text(0), "0");
}

#[test]
fn decimal_agrees_with_the_standard_library() {
    for value in -1100i64..1100 {
        assert_eq!(decimal_text(value), value.to_string());
    }
    for shift in 0..63 {
        let value = 1i64 << shift;
        assert_eq!(decimal_text(value), value.to_string());
        assert_eq!(decimal_text(-value), (-value).to_string());
        assert_eq!(decimal_text(value - 1), (value - 1).to_string());
        assert_eq!(unsigned_text(value as u64), value.to_string());
    }
}

#[test]
fn push_decimal_adds_to_the_end() {
    let mut text = String::from("n = ");
    push_decimal(&mut text, -42);
    assert_eq!(text, "n = -42");
    push_unsigned(&mut text, 7);
    assert_eq!(text, "n = -427");
}

#[test]
fn binary_of_small_numbers() {
    assert_eq!(binary_text(0), "0");
    assert_eq!(binary_text(1), "1");
    assert_eq!(binary_text(2), "10");
    assert_eq!(binary_text(5), "101");
    assert_eq!(binary_text(255), "11111111");
}

#[test]
fn binary_of_negative_numbers_is_twos_complement() {
    assert_eq!(binary_text(-1), "1".repeat(32));
    assert_eq!(binary_text(i32::MIN), format!("1{}", "0".repeat(31)));
    assert_eq!(binary_text(-2), format!("{}0", "1".repeat(31)));
}

#[test]
fn binary_agrees_with_the_standard_library() {
    for value in -300i32..300 {
        assert_eq!(binary_text(value), format!("{:b}", value));
    }
    assert_eq!(binary_text(i32::MAX), format!("{:b}", i32::MAX));
    assert_eq!(binary_text(i32::MIN), format!("{:b}", i32::MIN));
}
