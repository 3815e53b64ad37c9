use euler_core::fonts::normalize_font_families;

fn names(list: &[&str]) -> Vec<String> {
    list.iter().map(|s| s.to_string()).collect()
}

#[test]
fn families_are_trimmed_deduplicated_and_sorted() {
    let input = names(&["  Geist ", "Arial", "Geist", "Zapfino", "Arial "]);
    let out = normalize_font_families(&input);
    assert_eq!(out, names(&["Arial", "Geist", "Zapfino"]));
}

#[test]
fn whitespace_only_families_are_dropped() {
    let input = names(&["   ", "", "\t", "Menlo"]);
    let out = normalize_font_families(&input);
    assert_eq!(out, names(&["Menlo"]));
}

#[test]
fn empty_enumeration_yields_no_families() {
    let out = normalize_font_families(&Vec::new());
    assert!(out.is_empty());
}

#[test]
fn order_is_lexicographic_by_code_point() {
    let input = names(&["b", "A", "a", "B"]);
    let out = normalize_font_families(&input);
    assert_eq!(out, names(&["A", "B", "a", "b"]));
}
