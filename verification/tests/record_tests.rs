use fast_search::record::{first_text, record_from, RecordFields, SearchResult};

const FIELDS: RecordFields =
    RecordFields { identifier: 0, searchable_name: 1, display_name: 2, language: 3 };

fn text(field: u32, value: &str) -> (u32, Option<String>) {
    (field, Some(value.to_string()))
}

#[test]
fn first_text_reads_the_value_of_the_field() {
    let doc = vec![text(0, "t1"), text(1, "high hopes")];
    assert_eq!(first_text(&doc, 1), Some("high hopes".to_string()));
    assert_eq!(first_text(&doc, 0), Some("t1".to_string()));
}

#[test]
fn first_text_takes_the_first_of_several_values() {
    let doc = vec![text(4, "x"), text(1, "first"), text(1, "second")];
    assert_eq!(first_text(&doc, 1), Some("first".to_string()));
}

#[test]
fn first_text_is_missing_without_a_value() {
    let doc = vec![text(0, "t1")];
    assert_eq!(first_text(&doc, 1), None);
    assert_eq!(first_text(&Vec::new(), 0), None);
}

#[test]
fn first_text_is_missing_where_the_first_value_is_no_text() {
    let doc = vec![(1, None), text(1, "later")];
    assert_eq!(first_text(&doc, 1), None);
}

#[test]
fn record_from_reads_the_four_texts() {
    let doc = vec![text(0, "t1"), text(1, "high hopes"), text(2, "High Hopes"), text(3, "en")];
    let expected = SearchResult {
        score: "1.5".to_string(),
        identifier: "t1".to_string(),
        searchable_name: "high hopes".to_string(),
        display_name: "High Hopes".to_string(),
        language: "en".to_string(),
    };
    assert_eq!(record_from("1.5".to_string(), &doc, FIELDS), Some(expected));
}

#[test]
fn record_from_does_not_depend_on_the_order_of_the_values() {
    let doc = vec![text(3, "ru"), text(2, "Кино"), text(1, "кино"), text(0, "t3")];
    let expected = SearchResult {
        score: "0.1".to_string(),
        identifier: "t3".to_string(),
        searchable_name: "кино".to_string(),
        display_name: "Кино".to_string(),
        language: "ru".to_string(),
    };
    assert_eq!(record_from("0.1".to_string(), &doc, FIELDS), Some(expected));
}

#[test]
fn record_from_refuses_a_document_without_one_of_the_texts() {
    let doc = vec![text(0, "t1"), text(1, "high hopes"), text(3, "en")];
    assert_eq!(record_from("1.5".to_string(), &doc, FIELDS), None);
    let doc = vec![text(0, "t1"), text(1, "high hopes"), (2, None), text(3, "en")];
    assert_eq!(record_from("1.5".to_string(), &doc, FIELDS), None);
}
