use renmap::text::{decimal_string, join_strings, push_decimal};

#[test]
fn decimal_matches_format() {
    for n in [0u64, 7, 10, 42, 100, 65535, 1234567890, u64::MAX] {
        assert_eq!(decimal_string(n), format!("{}", n));
    }
}

#[test]
fn push_decimal_appends() {
    let mut s = String::from("id ");
    push_decimal(&mut s, 305);
    assert_eq!(s, "id 305");
}

#[test]
fn join_matches_std_join() {
    let none: Vec<String> = vec![];
    assert_eq!(join_strings(&none, "|"), "");
    let one = vec!["open".to_string()];
    assert_eq!(join_strings(&one, "|"), "open");
    let three = vec!["open".to_string(), "closed".to_string(), "filtered".to_string()];
    assert_eq!(join_strings(&three, "|"), "open|closed|filtered");
    assert_eq!(join_strings(&three, "|"), three.join("|"));
    let empties = vec![String::new(), String::new()];
    assert_eq!(join_strings(&empties, ", "), ", ");
}
