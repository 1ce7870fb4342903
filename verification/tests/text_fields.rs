use vidyffy::decimal::{decimal_string, keep_digit_chars, parse_u32_digits};
use vidyffy::input::restrict_to_u32_input;

#[test]
fn decimal_writes_numbers() {
    assert_eq!(decimal_string(0), "0");
    assert_eq!(decimal_string(7), "7");
    assert_eq!(decimal_string(10), "10");
    assert_eq!(decimal_string(4294967295), "4294967295");
    assert_eq!(decimal_string(u64::MAX), u64::MAX.to_string());
}

#[test]
fn keep_digits_drops_other_characters() {
    let d = keep_digit_chars("a1.2-3 é4");
    assert_eq!(d, vec!['1', '2', '3', '4']);
    assert!(keep_digit_chars("abc").is_empty());
}

#[test]
fn parse_reads_digits() {
    assert_eq!(parse_u32_digits(&vec!['0', '0', '4', '2']), Some(42));
    assert_eq!(parse_u32_digits(&vec![]), None);
    let max: Vec<char> = "4294967295".chars().collect();
    assert_eq!(parse_u32_digits(&max), Some(u32::MAX));
    let over: Vec<char> = "4294967296".chars().collect();
    assert_eq!(parse_u32_digits(&over), None);
    let long: Vec<char> = "000000000000000000001".chars().collect();
    assert_eq!(parse_u32_digits(&long), Some(1));
}

#[test]
fn restrict_keeps_digits_and_clamps() {
    let mut text = String::from("old");
    let mut value = 5u32;
    restrict_to_u32_input("x0150y".to_string(), &mut text, &mut value, 0, 100);
    assert_eq!(text, "150");
    assert_eq!(value, 100);

    restrict_to_u32_input("7".to_string(), &mut text, &mut value, 10, 100);
    assert_eq!(text, "7");
    assert_eq!(value, 10);

    restrict_to_u32_input("55".to_string(), &mut text, &mut value, 10, 100);
    assert_eq!(text, "55");
    assert_eq!(value, 55);
}

#[test]
fn restrict_falls_back_to_zero() {
    let mut text = String::from("12");
    let mut value = 12u32;
    restrict_to_u32_input("abc".to_string(), &mut text, &mut value, 0, 100);
    assert_eq!(text, "0");
    assert_eq!(value, 0);

    restrict_to_u32_input("99999999999".to_string(), &mut text, &mut value, 0, 100);
    assert_eq!(text, "0");
    assert_eq!(value, 0);
}

#[test]
fn restrict_shown_text_is_stable() {
    let mut text = String::new();
    let mut value = 0u32;
    restrict_to_u32_input("0042".to_string(), &mut text, &mut value, 0, 1000);
    let shown = text.clone();
    restrict_to_u32_input(shown.clone(), &mut text, &mut value, 0, 1000);
    assert_eq!(text, shown);
    assert_eq!(value, 42);
}
