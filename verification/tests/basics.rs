use company_email::is_even;
use company_email::say_hello;

#[test]
fn test_say_hello() {
    assert_eq!(say_hello(), "Hello, world!");
}

#[test]
fn test_is_even() {
    assert!(is_even(4));
}

#[test]
fn test_is_odd() {
    assert_eq!(is_even(7), false);
}
