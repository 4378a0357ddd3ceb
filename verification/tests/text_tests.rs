use sop::numeral::{digit_of, push_decimal};
use sop::text::{chars_of, clone_texts, owned, same_text};

#[test]
fn chars_of_keeps_order() {
    assert_eq!(chars_of("a.b"), vec!['a', '.', 'b']);
    assert_eq!(chars_of(""), Vec::<char>::new());
    assert_eq!(chars_of("é✓"), vec!['é', '✓']);
}

#[test]
fn same_text_compares_characters() {
    assert!(same_text("latest", "latest"));
    assert!(same_text("", ""));
    assert!(!same_text("latest", "latesT"));
    assert!(!same_text("latest", "late"));
    assert!(!same_text("late", "latest"));
}

#[test]
fn owned_copies() {
    assert_eq!(owned("src/main.so"), "src/main.so");
}

#[test]
fn clone_texts_copies_every_item() {
    let list = vec!["cli".to_string(), "".to_string(), "tool".to_string()];
    assert_eq!(clone_texts(&list), list);
    assert_eq!(clone_texts(&Vec::new()), Vec::<String>::new());
}

#[test]
fn digit_of_knows_the_ten_digits() {
    assert_eq!(digit_of('0'), Some(0));
    assert_eq!(digit_of('7'), Some(7));
    assert_eq!(digit_of('9'), Some(9));
    assert_eq!(digit_of('a'), None);
    assert_eq!(digit_of('+'), None);
    assert_eq!(digit_of('٣'), None);
}

fn decimal(n: u64) -> String {
    let mut text = String::from("v");
    push_decimal(&mut text, n);
    text
}

#[test]
fn push_decimal_writes_without_leading_zeros() {
    assert_eq!(decimal(0), "v0");
    assert_eq!(decimal(7), "v7");
    assert_eq!(decimal(10), "v10");
    assert_eq!(decimal(1000), "v1000");
    assert_eq!(decimal(4294967296), "v4294967296");
    assert_eq!(decimal(u64::MAX), "v18446744073709551615");
}
