use hinjaku::natural::{lex_order_of, natord, Order};

#[test]
fn numbers_compare_by_value() {
    assert_eq!(natord("page2", "page10"), Order::Less);
    assert_eq!(natord("page10", "page2"), Order::Greater);
    assert_eq!(natord("img9.png", "img10.png"), Order::Less);
}

#[test]
fn leading_zeros_do_not_count() {
    assert_eq!(natord("007", "7"), Order::Equal);
    assert_eq!(natord("a01b", "a1c"), Order::Less);
}

#[test]
fn letters_ignore_ascii_case() {
    assert_eq!(natord("Alpha", "alpha"), Order::Equal);
    assert_eq!(natord("alpha", "Beta"), Order::Less);
}

#[test]
fn shorter_prefix_first() {
    assert_eq!(natord("ab", "abc"), Order::Less);
    assert_eq!(natord("", ""), Order::Equal);
    assert_eq!(natord("x", ""), Order::Greater);
}

#[test]
fn digits_against_other_characters() {
    // digits sort between the punctuation below '0' and the letters above '9'
    assert_eq!(natord("a1", "a-"), Order::Greater);
    assert_eq!(natord("a1", "ab"), Order::Less);
}

#[test]
fn plain_order_is_code_point_order() {
    assert_eq!(lex_order_of("page10", "page2"), Order::Less);
    assert_eq!(lex_order_of("B", "a"), Order::Less);
    assert_eq!(lex_order_of("abc", "abc"), Order::Equal);
    assert_eq!(lex_order_of("abc", "ab"), Order::Greater);
}
