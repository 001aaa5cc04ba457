use lambda_operator::decimal::{decimal_string, push_decimal, push_decimal_digits};
use lambda_operator::string_map::StringMap;

#[test]
fn integers_are_written_in_decimal() {
    assert_eq!(decimal_string(0), "0");
    assert_eq!(decimal_string(7), "7");
    assert_eq!(decimal_string(10), "10");
    assert_eq!(decimal_string(1234567890), "1234567890");
    assert_eq!(decimal_string(1700000000), "1700000000");
    assert_eq!(decimal_string(-5), "-5");
    assert_eq!(decimal_string(-100), "-100");
    assert_eq!(decimal_string(i64::MAX), "9223372036854775807");
    assert_eq!(decimal_string(i64::MIN), "-9223372036854775808");
}

#[test]
fn decimal_text_agrees_with_the_standard_formatter() {
    for n in [0i64, 1, 9, 10, 11, 99, 100, 101, 999, 1000, -1, -9, -10, -99, -1000, 4611686018427387904] {
        assert_eq!(decimal_string(n), format!("{}", n));
    }
}

#[test]
fn digits_are_appended_to_what_is_there() {
    let mut text = "job-".to_string();
    push_decimal_digits(&mut text, 42);
    assert_eq!(text, "job-42");
    push_decimal_digits(&mut text, u64::MAX);
    assert_eq!(text, "job-4218446744073709551615");
    let mut signed = "n=".to_string();
    push_decimal(&mut signed, -3);
    assert_eq!(signed, "n=-3");
}

#[test]
fn a_new_map_is_empty() {
    let map = StringMap::new();
    assert!(map.is_empty());
    assert_eq!(map.len(), 0);
    assert!(map.get("cpu").is_none());
    assert!(map.entries().is_empty());
}

#[test]
fn inserted_keys_are_found_with_their_values() {
    let mut map = StringMap::new();
    map.insert("cpu".to_string(), "500m".to_string());
    map.insert("memory".to_string(), "64Mi".to_string());
    assert!(!map.is_empty());
    assert_eq!(map.len(), 2);
    assert_eq!(map.get("cpu").map(|v| v.as_str()), Some("500m"));
    assert_eq!(map.get("memory").map(|v| v.as_str()), Some("64Mi"));
    assert!(map.get("disk").is_none());
}

#[test]
fn inserting_a_key_again_replaces_its_value_in_place() {
    let mut map = StringMap::new();
    map.insert("a".to_string(), "1".to_string());
    map.insert("b".to_string(), "2".to_string());
    map.insert("a".to_string(), "3".to_string());
    assert_eq!(map.len(), 2);
    assert_eq!(map.get("a").map(|v| v.as_str()), Some("3"));
    assert_eq!(map.get("b").map(|v| v.as_str()), Some("2"));
    assert_eq!(
        map.entries(),
        &vec![("a".to_string(), "3".to_string()), ("b".to_string(), "2".to_string())]
    );
}

#[test]
fn the_empty_key_is_a_key_like_any_other() {
    let mut map = StringMap::new();
    map.insert(String::new(), "nothing".to_string());
    assert_eq!(map.len(), 1);
    assert_eq!(map.get("").map(|v| v.as_str()), Some("nothing"));
}
