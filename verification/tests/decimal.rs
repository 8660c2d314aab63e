use room_cables::decimal::{int_to_string, nat_to_string};

#[test]
fn single_digits() {
    let digits = ["0", "1", "2", "3", "4", "5", "6", "7", "8", "9"];
    for (value, digit) in digits.iter().enumerate() {
        assert_eq!(nat_to_string(value as u64), *digit);
        assert_eq!(int_to_string(value as i64), *digit);
    }
}

#[test]
fn several_digits() {
    assert_eq!(nat_to_string(10), "10");
    assert_eq!(nat_to_string(7890), "7890");
    assert_eq!(nat_to_string(10115), "10115");
    assert_eq!(nat_to_string(1000000), "1000000");
    assert_eq!(nat_to_string(u64::MAX), "18446744073709551615");
}

#[test]
fn negative_numbers() {
    assert_eq!(int_to_string(-1), "-1");
    assert_eq!(int_to_string(-7890), "-7890");
    assert_eq!(int_to_string(i64::MIN), "-9223372036854775808");
    assert_eq!(int_to_string(i64::MAX), "9223372036854775807");
}

#[test]
fn agrees_with_the_standard_rendering() {
    let values = [0i64, 5, 42, 100, 12345, 7890, -3, -100, 99999, 100000, i64::MAX, i64::MIN];
    for value in values {
        assert_eq!(int_to_string(value), format!("{}", value));
    }
}
