use scholar::decimal::decimal_string;

#[test]
fn zero_is_one_digit() {
    assert_eq!(decimal_string(0), "0");
}

#[test]
fn single_digits() {
    assert_eq!(decimal_string(1), "1");
    assert_eq!(decimal_string(5), "5");
    assert_eq!(decimal_string(9), "9");
}

#[test]
fn digits_come_most_significant_first() {
    assert_eq!(decimal_string(10), "10");
    assert_eq!(decimal_string(2018), "2018");
    assert_eq!(decimal_string(1234567890), "1234567890");
}

#[test]
fn largest_number() {
    assert_eq!(decimal_string(u32::MAX), "4294967295");
}

#[test]
fn agrees_with_the_standard_formatting() {
    let mut n: u32 = 1;
    for _ in 0..200 {
        assert_eq!(decimal_string(n), format!("{}", n));
        n = n.wrapping_mul(2654435761).wrapping_add(12345);
    }
}
