use paper_index::naming::table_name;

#[test]
fn table_name_prefixes_and_keeps_alphanumerics() {
    assert_eq!(table_name("doc1"), "doc_doc1");
    assert_eq!(table_name(""), "doc_");
    assert_eq!(table_name("Paper2024"), "doc_Paper2024");
}

#[test]
fn table_name_replaces_everything_else() {
    assert_eq!(table_name("2311.18775v2"), "doc_2311_18775v2");
    assert_eq!(table_name("a b/c\\d:e"), "doc_a_b_c_d_e");
    assert_eq!(table_name("__"), "doc___");
}

#[test]
fn table_name_collides_on_punctuation() {
    assert_eq!(table_name("doc-1"), "doc_doc_1");
    assert_eq!(table_name("doc_1"), "doc_doc_1");
    assert_eq!(table_name("doc-1"), table_name("doc.1"));
    assert_ne!(table_name("doc-1"), table_name("doc-2"));
}

#[test]
fn table_name_goes_by_unicode() {
    assert_eq!(table_name("étude№5"), "doc_étude_5");
    assert_eq!(table_name("論文①"), "doc_論文①");
    assert_eq!(table_name("a\u{301}"), "doc_a_");
}
