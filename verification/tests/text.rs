use chopsticks::text::decimal;

#[test]
fn decimal_of_single_digits() {
    let numerals = ["0", "1", "2", "3", "4", "5", "6", "7", "8", "9"];
    for (value, numeral) in numerals.iter().enumerate() {
        assert_eq!(decimal(value as u32), *numeral);
    }
}

#[test]
fn decimal_of_longer_numbers() {
    assert_eq!(decimal(10), "10");
    assert_eq!(decimal(99), "99");
    assert_eq!(decimal(100), "100");
    assert_eq!(decimal(1_020_304), "1020304");
    assert_eq!(decimal(u32::MAX), "4294967295");
}

#[test]
fn decimal_agrees_with_the_standard_formatting() {
    let mut value: u32 = 7;
    for _ in 0..500 {
        assert_eq!(decimal(value), format!("{}", value));
        value = value.wrapping_mul(1_103_515_245).wrapping_add(12_345);
    }
}
