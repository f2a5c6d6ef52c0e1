use wpp_desktop::text::{around, decimal_text, same_text};

#[test]
fn decimals() {
    for n in [0u32, 7, 9, 10, 11, 99, 100, 5150, 4294967295] {
        assert_eq!(decimal_text(n), n.to_string());
    }
}

#[test]
fn texts_compare_by_their_characters() {
    assert!(same_text("", ""));
    assert!(same_text("grün", "grün"));
    assert!(!same_text("grün", "grun"));
    assert!(!same_text("http", "https"));
    assert!(!same_text("abc", "abd"));
}

#[test]
fn texts_in_a_row() {
    assert_eq!(around("a", "ß", "c"), "aßc");
}
