use paper_index::category::{format_category, get_category_map};

#[test]
fn test_category_formatting() {
    assert_eq!(format_category("cs.AI"), "Artificial Intelligence");
    assert_eq!(format_category("cs.CL"), "Computation and Language");
    assert_eq!(
        format_category("cs.CV"),
        "Computer Vision and Pattern Recognition"
    );
    assert_eq!(format_category("cs.LG"), "Machine Learning");
    assert_eq!(format_category("math.CO"), "Combinatorics");
    assert_eq!(
        format_category("physics.data-an"),
        "Data Analysis, Statistics and Probability"
    );
    assert_eq!(format_category("quant-ph"), "Quantum Physics");
    assert_eq!(format_category("stat.ML"), "Machine Learning");
    assert_eq!(format_category("q-bio.NC"), "Neurons and Cognition");
    assert_eq!(
        format_category("astro-ph.CO"),
        "Cosmology and Nongalactic Astrophysics"
    );
    assert_eq!(format_category("cond-mat.supr-con"), "Superconductivity");
    assert_eq!(format_category("hep-th"), "High Energy Physics - Theory");
    assert_eq!(format_category("unknown.category"), "UNKNOWN");
    assert_eq!(format_category(""), "");
}

#[test]
fn category_map_holds_each_code_once() {
    let map = get_category_map();
    assert_eq!(map.len(), 156);
    assert_eq!(map.get("eess.SY").map(|s| s.as_str()), Some("Systems and Control"));
    assert!(map.get("unknown.category").is_none());
}

#[test]
fn unknown_code_without_dot_is_upper_cased_whole() {
    assert_eq!(format_category("bogus"), "BOGUS");
    assert_eq!(format_category(".hidden"), "");
    assert_eq!(format_category("straße.x"), "STRASSE");
}
