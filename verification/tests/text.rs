use sorm_flow::text::{push_decimal, push_joined};

fn numeral(n: u64) -> String {
    let mut s = String::new();
    push_decimal(&mut s, n);
    s
}

#[test]
fn decimal_numerals() {
    assert_eq!(numeral(0), "0");
    assert_eq!(numeral(7), "7");
    assert_eq!(numeral(10), "10");
    assert_eq!(numeral(109), "109");
    assert_eq!(numeral(1234567890), "1234567890");
    assert_eq!(numeral(u64::MAX), "18446744073709551615");
}

#[test]
fn numeral_is_appended() {
    let mut s = String::from("LIMIT ");
    push_decimal(&mut s, 42);
    assert_eq!(s, "LIMIT 42");
}

#[test]
fn joined_items() {
    let mut s = String::from("[");
    push_joined(&mut s, &vec!["a".to_string(), "b".to_string(), "c".to_string()], ", ");
    assert_eq!(s, "[a, b, c");
}

#[test]
fn joined_single_and_none() {
    let mut s = String::new();
    push_joined(&mut s, &vec!["only".to_string()], " AND ");
    assert_eq!(s, "only");
    let mut e = String::from("x");
    push_joined(&mut e, &Vec::new(), " AND ");
    assert_eq!(e, "x");
}

#[test]
fn joined_keeps_empty_items() {
    let mut s = String::new();
    push_joined(&mut s, &vec![String::new(), "b".to_string(), String::new()], "-");
    assert_eq!(s, "-b-");
}
