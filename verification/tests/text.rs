use pc_health::text::{
    contains_ignoring_ascii_case, eq_ignoring_ascii_case, join_texts, prefix_chars,
    sorted_unique, text_before, with_decimal,
};

#[test]
fn texts_order_like_rust_strings() {
    let words = ["", "a", "ab", "b", "B", "가", "z", "10", "9"];
    for a in words {
        for b in words {
            assert_eq!(text_before(a, b), a < b, "{a:?} < {b:?}");
        }
    }
}

#[test]
fn sorting_keeps_each_text_once() {
    let sorted = sorted_unique(vec![
        "pear".into(),
        "apple".into(),
        "pear".into(),
        "fig".into(),
        "apple".into(),
    ]);
    assert_eq!(sorted, vec!["apple", "fig", "pear"]);
    assert!(sorted_unique(vec![]).is_empty());
}

#[test]
fn case_insensitive_search_only_folds_ascii_letters() {
    assert!(contains_ignoring_ascii_case("CPU Package", "package"));
    assert!(contains_ignoring_ascii_case("x", ""));
    assert!(!contains_ignoring_ascii_case("CPU Pack", "package"));
    assert!(eq_ignoring_ascii_case("TeMpErAtUrE", "temperature"));
    assert!(!eq_ignoring_ascii_case("temperature", "temperatures"));
    assert!(!eq_ignoring_ascii_case("É", "é"));
}

#[test]
fn text_helpers_join_cut_and_number() {
    assert_eq!(join_texts(&vec!["a".into(), "b".into(), "c".into()], ", "), "a, b, c");
    assert_eq!(join_texts(&vec![], ", "), "");
    assert_eq!(prefix_chars("센서데이터", 2), "센서");
    assert_eq!(prefix_chars("ab", 5), "ab");
    assert_eq!(with_decimal("n=", 0), "n=0");
    assert_eq!(with_decimal("n=", 1234567890), "n=1234567890");
}
