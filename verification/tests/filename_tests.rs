use notesponge::filename::{derived_page_filename, extension_for_mime, image_filename, sanitize_filename};

#[test]
fn sanitize_replaces_each_separator() {
    assert_eq!(sanitize_filename("a/b\\c:d"), "a_b_c_d");
}

#[test]
fn sanitize_leaves_other_characters_untouched() {
    assert_eq!(sanitize_filename("a*b?c<d>e|f\"g h.md"), "a*b?c<d>e|f\"g h.md");
    assert_eq!(sanitize_filename(""), "");
    assert_eq!(sanitize_filename("déjà vu: 日本語/ok"), "déjà vu_ 日本語_ok");
}

#[test]
fn derived_name_starts_with_the_identifier() {
    assert_eq!(derived_page_filename(42, "Notes: a/b"), "42_Notes_ a_b.md");
    assert_eq!(derived_page_filename(-7, ""), "-7_.md");
    assert_eq!(derived_page_filename(0, "x"), "0_x.md");
    assert_eq!(
        derived_page_filename(i64::MIN, "t"),
        "-9223372036854775808_t.md"
    );
    assert_eq!(derived_page_filename(i64::MAX, "t"), "9223372036854775807_t.md");
}

#[test]
fn same_title_different_ids_give_different_names() {
    let first = derived_page_filename(1, "Shopping list");
    let second = derived_page_filename(2, "Shopping list");
    assert_ne!(first, second);
    assert_eq!(first, "1_Shopping list.md");
    assert_eq!(second, "2_Shopping list.md");
}

#[test]
fn mime_table() {
    assert_eq!(extension_for_mime("image/png"), "png");
    assert_eq!(extension_for_mime("image/jpeg"), "jpg");
    assert_eq!(extension_for_mime("image/jpg"), "jpg");
    assert_eq!(extension_for_mime("image/gif"), "gif");
    assert_eq!(extension_for_mime("image/webp"), "webp");
    assert_eq!(extension_for_mime("image/svg+xml"), "svg");
    assert_eq!(extension_for_mime("application/pdf"), "bin");
    assert_eq!(extension_for_mime(""), "bin");
    assert_eq!(extension_for_mime("IMAGE/PNG"), "bin");
}

#[test]
fn image_name_holds_both_identifiers() {
    assert_eq!(image_filename(3, 17, "png"), "3_17.png");
    assert_eq!(image_filename(10, 0, "bin"), "10_0.bin");
}
