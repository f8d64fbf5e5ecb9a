use clackbot::text::{extract_int, parse_decimal, push_decimal, push_signed_decimal, str_eq, str_starts_with};

#[test]
fn amount_from_reward_titles() {
    assert_eq!(extract_int("3 Clacks"), Some(3));
    assert_eq!(extract_int("20 Clacks"), Some(20));
    assert_eq!(extract_int("No Number Here"), None);
}

#[test]
fn amount_is_first_run_of_digits() {
    assert_eq!(extract_int("Win 15 or 30"), Some(15));
    assert_eq!(extract_int("abc007def"), Some(7));
    assert_eq!(extract_int(""), None);
    assert_eq!(extract_int("2147483647"), Some(2147483647));
    assert_eq!(extract_int("2147483648 Clacks"), None);
}

#[test]
fn decimal_rendering() {
    let mut s = String::from("n=");
    push_decimal(&mut s, 0);
    assert_eq!(s, "n=0");
    let mut s = String::new();
    push_decimal(&mut s, 1234567890);
    assert_eq!(s, "1234567890");
    let mut s = String::new();
    push_signed_decimal(&mut s, -42);
    assert_eq!(s, "-42");
    let mut s = String::new();
    push_signed_decimal(&mut s, 7);
    assert_eq!(s, "7");
}

#[test]
fn whole_number_parsing() {
    assert_eq!(parse_decimal("255", 255), Some(255));
    assert_eq!(parse_decimal("+12", 255), Some(12));
    assert_eq!(parse_decimal("256", 255), None);
    assert_eq!(parse_decimal("", 255), None);
    assert_eq!(parse_decimal("+", 255), None);
    assert_eq!(parse_decimal("12a", 255), None);
    assert_eq!(parse_decimal("-1", 255), None);
    assert_eq!(parse_decimal(" 1", 255), None);
}

#[test]
fn prefix_and_equality() {
    assert!(str_starts_with("!wpm 10", "!wpm"));
    assert!(!str_starts_with("!wp", "!wpm"));
    assert!(str_eq("abc", "abc"));
    assert!(!str_eq("abc", "abd"));
    assert!(!str_eq("abc", "ab"));
}
