use fast_search::suggest::{after_structured_lookup, dedup, NextLookup};

fn strings(texts: &[&str]) -> Vec<String> {
    texts.iter().map(|text| text.to_string()).collect()
}

#[test]
fn dedup_drops_neighbouring_repeats() {
    assert_eq!(dedup(strings(&["a", "a", "b"])), strings(&["a", "b"]));
}

#[test]
fn dedup_drops_far_repeats() {
    assert_eq!(dedup(strings(&["a", "b", "a", "c", "b"])), strings(&["a", "b", "c"]));
}

#[test]
fn dedup_keeps_the_first_occurrence_in_place() {
    assert_eq!(dedup(strings(&["hopes", "hope", "hopes"])), strings(&["hopes", "hope"]));
}

#[test]
fn dedup_of_nothing_is_nothing() {
    assert_eq!(dedup(strings(&[])), strings(&[]));
}

#[test]
fn dedup_leaves_distinct_items_alone() {
    assert_eq!(dedup(strings(&["c", "a", "b"])), strings(&["c", "a", "b"]));
}

#[test]
fn dedup_tells_case_apart() {
    assert_eq!(dedup(strings(&["a", "A", "a"])), strings(&["a", "A"]));
}

#[test]
fn empty_structured_lookup_falls_back_on_the_lower_case_token() {
    assert_eq!(
        after_structured_lookup("HoPeZ", strings(&[])),
        NextLookup::Fallback { term: "hopez".to_string() }
    );
}

#[test]
fn fallback_lowers_other_alphabets_too() {
    assert_eq!(
        after_structured_lookup("КРОВИ", strings(&[])),
        NextLookup::Fallback { term: "крови".to_string() }
    );
}

#[test]
fn one_structured_match_stops_the_fallback() {
    assert_eq!(
        after_structured_lookup("hop", strings(&["hopes"])),
        NextLookup::Done { suggestions: strings(&["hopes"]) }
    );
}

#[test]
fn structured_matches_come_back_without_repeats() {
    assert_eq!(
        after_structured_lookup("ho", strings(&["hopes", "high", "hopes", "hopes"])),
        NextLookup::Done { suggestions: strings(&["hopes", "high"]) }
    );
}
