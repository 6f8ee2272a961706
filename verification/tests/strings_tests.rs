use notesponge::strings::{has_prefix, same_text};

#[test]
fn same_text_compares_every_character() {
    assert!(same_text("", ""));
    assert!(same_text("abc", "abc"));
    assert!(!same_text("abc", "abd"));
    assert!(!same_text("abc", "ab"));
    assert!(!same_text("abc", "ABC"));
    assert!(same_text("日本語", "日本語"));
}

#[test]
fn prefix_is_found_at_the_start_only() {
    assert!(has_prefix("format_bold", "format_"));
    assert!(has_prefix("format_", "format_"));
    assert!(has_prefix("anything", ""));
    assert!(has_prefix("", ""));
    assert!(!has_prefix("format", "format_"));
    assert!(!has_prefix("", "f"));
    assert!(!has_prefix("a format_bold", "format_"));
    assert!(!has_prefix("Format_bold", "format_"));
    assert!(has_prefix("état civil", "ét"));
    assert!(!has_prefix("etat civil", "ét"));
}
