use todomvc::text::same_text;

#[test]
fn same_text_compares_characters() {
    assert!(same_text("active", "active"));
    assert!(!same_text("active", "Active"));
    assert!(!same_text("", "a"));
    assert!(same_text("", ""));
}
