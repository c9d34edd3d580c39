use bill_notify::text::{chars_of, digit_to_char, push_int, push_nat, same_text, take_chars};

#[test]
fn chars_come_in_order() {
    assert_eq!(chars_of("a¥b"), vec!['a', '¥', 'b']);
    assert_eq!(chars_of(""), Vec::<char>::new());
}

#[test]
fn take_chars_counts_characters_not_bytes() {
    assert_eq!(take_chars("123.45", 5), "123.4");
    assert_eq!(take_chars("12", 5), "12");
    assert_eq!(take_chars("", 5), "");
    assert_eq!(take_chars("¥¥¥¥¥¥¥", 6), "¥¥¥¥¥¥");
    assert_eq!(take_chars("abc", 0), "");
}

#[test]
fn same_text_compares_all_characters() {
    assert!(same_text("AmortizedCost", "AmortizedCost"));
    assert!(!same_text("AmortizedCost", "AmortizedCosts"));
    assert!(!same_text("AmortizedCost", "amortizedCost"));
    assert!(same_text("", ""));
    assert!(!same_text("", "a"));
}

#[test]
fn integers_are_written_in_decimal() {
    for n in [0i64, 7, 10, 1648, 18517, -1, -1648, i64::MAX, i64::MIN] {
        let mut out = String::from(">");
        push_int(&mut out, n);
        assert_eq!(out, format!(">{}", n));
    }
    for n in [0u64, 9, 10, 99, 100, u64::MAX] {
        let mut out = String::new();
        push_nat(&mut out, n);
        assert_eq!(out, n.to_string());
    }
}

#[test]
fn digit_characters() {
    assert_eq!(digit_to_char(0), '0');
    assert_eq!(digit_to_char(5), '5');
    assert_eq!(digit_to_char(9), '9');
}
