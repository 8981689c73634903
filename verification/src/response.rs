//! The shape in which matches leave the library: one JSON object with the
//! matches, in order, under a single key.

use vstd::prelude::*;
use crate::record::{result_views, SearchResult, SearchResultView};

verus! {

/// A JSON value.
#[verifier::external_type_specification]
#[verifier::external_body]
pub struct ExJsonValue(serde_json::Value);

/// A JSON object in the making: a map from keys to values.
#[verifier::external_type_specification]
#[verifier::external_body]
#[verifier::reject_recursive_types(K)]
#[verifier::reject_recursive_types(V)]
pub struct ExJsonMap<K, V>(serde_json::Map<K, V>);

/// An error of the JSON writer.
#[verifier::external_type_specification]
#[verifier::external_body]
pub struct ExJsonError(serde_json::Error);

/// A JSON document, as far as this library builds one.
pub enum Json {
    Text(Seq<char>),
    List(Seq<Json>),
    Object(Map<Seq<char>, Json>),
}

/// What a JSON value holds.
pub uninterp spec fn json_value(value: serde_json::Value) -> Json;

/// The entries of a JSON map, by key.
pub uninterp spec fn json_entries(map: serde_json::Map<String, serde_json::Value>) -> Map<
    Seq<char>,
    Json,
>;

/// The text that `serde_json::to_string` writes for a document.
pub uninterp spec fn json_text(document: Json) -> Seq<char>;

/// The entries of a JSON object without any.
pub open spec fn no_entries() -> Map<Seq<char>, Json> {
    Map::empty()
}

/// What a vector of JSON values holds.
pub open spec fn json_values(values: Seq<serde_json::Value>) -> Seq<Json> {
    Seq::new(values.len(), |i: int| json_value(values[i]))
}

/// `Value::String`: the JSON string of a text.
#[verifier::external_body]
fn json_string(text: String) -> (value: serde_json::Value)
    ensures
        json_value(value) == Json::Text(text@),
{
    serde_json::Value::String(text)
}

/// `Value::Array`: the JSON array of the values, in their order.
#[verifier::external_body]
fn json_array(items: Vec<serde_json::Value>) -> (value: serde_json::Value)
    ensures
        json_value(value) == Json::List(json_values(items@)),
{
    serde_json::Value::Array(items)
}

/// `Value::Object`: the JSON object with the entries of the map.
#[verifier::external_body]
fn json_object(map: serde_json::Map<String, serde_json::Value>) -> (value: serde_json::Value)
    ensures
        json_value(value) == Json::Object(json_entries(map)),
{
    serde_json::Value::Object(map)
}

/// `Map::new`: a map without entries.
#[verifier::external_body]
fn json_map() -> (made: serde_json::Map<String, serde_json::Value>)
    ensures
        json_entries(made) == no_entries(),
{
    serde_json::Map::new()
}

/// `Map::insert`: the map has `value` under `key` afterwards, in place of
/// what it had there, and its other entries as before.
#[verifier::external_body]
fn json_insert(
    map: &mut serde_json::Map<String, serde_json::Value>,
    key: String,
    value: serde_json::Value,
)
    ensures
        json_entries(*final(map)) == json_entries(*old(map)).insert(key@, json_value(value)),
{
    map.insert(key, value);
}

/// `serde_json::to_string` on a map. Writing a map of JSON values cannot
/// fail: its keys are strings, its values write themselves without an
/// error of their own, and the text goes to memory.
#[verifier::external_body]
fn json_to_string(map: &serde_json::Map<String, serde_json::Value>) -> (text: Result<
    String,
    serde_json::Error,
>)
    ensures
        text is Ok,
        text matches Ok(written) ==> written@ == json_text(Json::Object(json_entries(*map))),
{
    serde_json::to_string(map)
}

/// The JSON object for one match.
pub open spec fn result_json(result: SearchResultView) -> Json {
    Json::Object(
        no_entries().insert("score"@, Json::Text(result.score)).insert(
            "track_id"@,
            Json::Text(result.identifier),
        ).insert("name"@, Json::Text(result.searchable_name)).insert(
            "name_raw"@,
            Json::Text(result.display_name),
        ).insert("lang"@, Json::Text(result.language)),
    )
}

/// The JSON document for a sequence of matches: an object whose only key,
/// `result`, holds the array of the matches in order.
pub open spec fn response_json(results: Seq<SearchResultView>) -> Json {
    Json::Object(
        no_entries().insert(
            "result"@,
            Json::List(Seq::new(results.len(), |i: int| result_json(results[i]))),
        ),
    )
}

/// The document for one match: its score and its four texts under the keys
/// `score`, `track_id`, `name`, `name_raw` and `lang`.
fn result_value(result: &SearchResult) -> (value: serde_json::Value)
    ensures
        json_value(value) == result_json(result@),
{
    let mut map = json_map();
    json_insert(&mut map, "score".to_owned(), json_string(result.score.clone()));
    json_insert(&mut map, "track_id".to_owned(), json_string(result.identifier.clone()));
    json_insert(&mut map, "name".to_owned(), json_string(result.searchable_name.clone()));
    json_insert(&mut map, "name_raw".to_owned(), json_string(result.display_name.clone()));
    json_insert(&mut map, "lang".to_owned(), json_string(result.language.clone()));
    json_object(map)
}

/// Writes the matches as the JSON text of `response_json`. No matches give
/// the object with an empty array.
pub fn render(results: &Vec<SearchResult>) -> (text: String)
    ensures
        text@ == json_text(response_json(result_views(results@))),
{
    let mut items: Vec<serde_json::Value> = Vec::new();
    let mut i: usize = 0;
    while i < results.len()
        invariant
            i <= results.len(),
            items.len() == i,
            forall|k: int| 0 <= k < i ==> json_value(#[trigger] items[k]) == result_json(results[k]@),
        decreases results.len() - i,
    {
        items.push(result_value(&results[i]));
        i += 1;
    }
    assert(json_values(items@) == Seq::new(
        result_views(results@).len(),
        |i: int| result_json(result_views(results@)[i]),
    ));
    let mut map = json_map();
    json_insert(&mut map, "result".to_owned(), json_array(items));
    json_to_string(&map).unwrap()
}

} // verus!
