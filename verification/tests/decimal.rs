use todo_service::decimal::usize_to_decimal;

#[test]
fn zero_renders_as_a_single_digit() {
    assert_eq!(usize_to_decimal(0), "0");
}

#[test]
fn single_digits_render_directly() {
    assert_eq!(usize_to_decimal(7), "7");
    assert_eq!(usize_to_decimal(9), "9");
}

#[test]
fn multi_digit_numbers_render_most_significant_first() {
    assert_eq!(usize_to_decimal(10), "10");
    assert_eq!(usize_to_decimal(100), "100");
    assert_eq!(usize_to_decimal(12345), "12345");
    assert_eq!(usize_to_decimal(906050), "906050");
}

#[test]
fn the_largest_count_renders_fully() {
    assert_eq!(usize_to_decimal(usize::MAX), usize::MAX.to_string());
}
