use fast_search::record::SearchResult;
use fast_search::response::render;

fn result(score: &str, id: &str, name: &str, raw: &str, lang: &str) -> SearchResult {
    SearchResult {
        score: score.to_string(),
        identifier: id.to_string(),
        searchable_name: name.to_string(),
        display_name: raw.to_string(),
        language: lang.to_string(),
    }
}

#[test]
fn no_matches_render_as_an_empty_array() {
    assert_eq!(render(&Vec::new()), "{\"result\":[]}");
}

#[test]
fn a_match_renders_with_its_five_keys() {
    let results = vec![result("0.8025914", "t1", "high hopes", "High Hopes", "en")];
    assert_eq!(
        render(&results),
        "{\"result\":[{\"lang\":\"en\",\"name\":\"high hopes\",\"name_raw\":\"High Hopes\",\"score\":\"0.8025914\",\"track_id\":\"t1\"}]}"
    );
}

#[test]
fn matches_render_in_their_order() {
    let results = vec![result("2", "b", "b", "B", "en"), result("1", "a", "a", "A", "ru")];
    assert_eq!(
        render(&results),
        "{\"result\":[{\"lang\":\"en\",\"name\":\"b\",\"name_raw\":\"B\",\"score\":\"2\",\"track_id\":\"b\"},{\"lang\":\"ru\",\"name\":\"a\",\"name_raw\":\"A\",\"score\":\"1\",\"track_id\":\"a\"}]}"
    );
}

#[test]
fn texts_render_escaped() {
    let results = vec![result("1", "t\"1", "a\\b", "line\nbreak", "unknown")];
    let text = render(&results);
    let parsed: serde_json::Value = serde_json::from_str(&text).unwrap();
    let first = &parsed["result"][0];
    assert_eq!(first["track_id"], "t\"1");
    assert_eq!(first["name"], "a\\b");
    assert_eq!(first["name_raw"], "line\nbreak");
    assert_eq!(first["lang"], "unknown");
    assert_eq!(first["score"], "1");
}
