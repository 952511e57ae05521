use lyrics_overlay::fonts::{dedup_names, font_families};

fn names(v: &[&str]) -> Vec<String> {
    v.iter().map(|s| s.to_string()).collect()
}

#[test]
fn font_families_are_sorted_and_unique() {
    let r = font_families(names(&["Noto Sans", "Arial", "noto sans", "Arial", "Zapfino", "Arial Black"]));
    assert_eq!(r, names(&["Arial", "Arial Black", "Noto Sans", "Zapfino", "noto sans"]));
}

#[test]
fn font_families_orders_by_code_point() {
    let r = font_families(names(&["b", "\u{e9}", "B", "a"]));
    assert_eq!(r, names(&["B", "a", "b", "\u{e9}"]));
}

#[test]
fn font_families_of_nothing() {
    assert!(font_families(Vec::new()).is_empty());
}

#[test]
fn dedup_names_drops_adjacent_repeats_only() {
    let r = dedup_names(&names(&["a", "a", "b", "a", "a", "c"]));
    assert_eq!(r, names(&["a", "b", "a", "c"]));
}
