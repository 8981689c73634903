use fast_search::catalog::{
    catalog_records, catalog_words, phrase_document, read_source, word_document,
};
use fast_search::error::SearchError;
use fast_search::analysis::{apply_phrases_index_tokenizator, apply_words_index_tokenizator};
use fast_search::index::{
    init_phrases_reader, init_words_reader, Conjunction, PhraseSession, Phrases, WordSession, Words,
};
use fast_search::schema::{
    field_number, holds_text_only, init_phrases_schema, init_words_schema, record_fields,
    word_field,
};
use fast_search::query::{compose, compose_compound, Occur, Query};
use fast_search::record::RecordFields;
use fast_search::search::{after_exact_lookup, plan, search, search_in, Escalation, Plan};
use fast_search::suggest::resolve;
use tantivy::schema::{Field, Schema, STORED, STRING, TEXT};
use tantivy::{Document, Index};

const TABLE: &str = "id,artist,name\n\
t1,Panic! At The Disco,High Hopes\n\
t2,Pink Floyd,High Hopes and Dreams\n\
t3,Кино,Группа крови на рукаве\n\
t4,Queen,Bohemian Rhapsody\n";

const EMPTY: &str = "{\"result\":[]}";

fn strings(texts: &[&str]) -> Vec<String> {
    texts.iter().map(|text| text.to_string()).collect()
}

fn to_document(values: Vec<(u32, Option<String>)>) -> Document {
    let mut document = Document::default();
    for (field, value) in values {
        if let Some(text) = value {
            document.add_text(Field::from_field_id(field), &text);
        }
    }
    document
}

fn words_of(table: &str, conjunction: Conjunction) -> Words {
    let schema = init_words_schema();
    let index = apply_words_index_tokenizator(Index::create_in_ram(schema.clone()));
    let mut writer = index.writer(50_000_000).unwrap();
    let word = word_field(&schema).unwrap();
    for entry in catalog_words(&read_source(table).unwrap()) {
        writer.add_document(to_document(word_document(word, &entry)));
    }
    writer.commit().unwrap();
    let reader = init_words_reader(&index).unwrap();
    Words { reader, schema, index, conjunction }
}

fn phrases_of(table: &str) -> Phrases {
    let schema = init_phrases_schema();
    let index = apply_phrases_index_tokenizator(Index::create_in_ram(schema.clone()));
    let mut writer = index.writer(50_000_000).unwrap();
    let fields = record_fields(&schema).unwrap();
    for record in catalog_records(&read_source(table).unwrap()) {
        writer.add_document(to_document(phrase_document(fields, &record)));
    }
    writer.commit().unwrap();
    let reader = init_phrases_reader(&index).unwrap();
    Phrases { reader, schema, index }
}

fn bare_index(schema: Schema) -> Index {
    let index = Index::create_in_ram(schema);
    let mut writer = index.writer(50_000_000).unwrap();
    writer.commit().unwrap();
    index
}

fn phrases_with(schema: Schema) -> Phrases {
    let index = bare_index(schema.clone());
    let reader = init_phrases_reader(&index).unwrap();
    Phrases { reader, schema, index }
}

fn words_with(schema: Schema) -> Words {
    let index = bare_index(schema.clone());
    let reader = init_words_reader(&index).unwrap();
    Words { reader, schema, index, conjunction: Conjunction::AnyWord }
}

fn sorted(mut texts: Vec<String>) -> Vec<String> {
    texts.sort();
    texts
}

fn identifiers(answer: &str) -> Vec<String> {
    let parsed: serde_json::Value = serde_json::from_str(answer).unwrap();
    parsed["result"]
        .as_array()
        .unwrap()
        .iter()
        .map(|entry| entry["track_id"].as_str().unwrap().to_string())
        .collect()
}

#[test]
fn single_token_finds_every_record_that_holds_it() {
    let words = words_of(TABLE, Conjunction::AnyWord);
    let phrases = phrases_of(TABLE);
    assert_eq!(sorted(identifiers(&search(&words, &phrases, "hopes").unwrap())), vec!["t1", "t2"]);
    assert_eq!(identifiers(&search(&words, &phrases, "rhapsody").unwrap()), vec!["t4"]);
    assert_eq!(identifiers(&search(&words, &phrases, "крови").unwrap()), vec!["t3"]);
}

#[test]
fn single_token_gives_the_whole_match() {
    let words = words_of(TABLE, Conjunction::AnyWord);
    let phrases = phrases_of(TABLE);
    let answer = search(&words, &phrases, "rhapsody").unwrap();
    let parsed: serde_json::Value = serde_json::from_str(&answer).unwrap();
    let score = parsed["result"][0]["score"].as_str().unwrap().to_string();
    assert!(score.parse::<f32>().unwrap() > 0.0);
    assert_eq!(
        answer,
        format!(
            "{{\"result\":[{{\"lang\":\"en\",\"name\":\"bohemian rhapsody\",\"name_raw\":\"Bohemian Rhapsody\",\"score\":\"{}\",\"track_id\":\"t4\"}}]}}",
            score
        )
    );
}

#[test]
fn blank_text_gives_the_empty_response() {
    let words = words_of(TABLE, Conjunction::AnyWord);
    let phrases = phrases_of(TABLE);
    assert_eq!(search(&words, &phrases, "").unwrap(), EMPTY);
    assert_eq!(search(&words, &phrases, "   ").unwrap(), EMPTY);
    assert_eq!(search(&words, &phrases, " \t\n").unwrap(), EMPTY);
}

#[test]
fn blank_text_does_not_touch_the_indices() {
    let words = words_with(init_phrases_schema());
    let phrases = phrases_with(init_words_schema());
    assert_eq!(search(&words, &phrases, "  ").unwrap(), EMPTY);
    assert_eq!(search(&words, &phrases, "hopes"), Err(SearchError::MissingField));
}

#[test]
fn phrase_with_a_known_last_token_finds_the_record() {
    let table = "id,artist,name\nt1,Panic! At The Disco,High Hopes\n";
    let words = words_of(table, Conjunction::AnyWord);
    let phrases = phrases_of(table);
    let answer = search(&words, &phrases, "high hopes").unwrap();
    assert_eq!(identifiers(&answer), vec!["t1"]);
    let parsed: serde_json::Value = serde_json::from_str(&answer).unwrap();
    assert_eq!(parsed["result"][0]["name"], "high hopes");
    assert_eq!(parsed["result"][0]["name_raw"], "High Hopes");
    assert_eq!(parsed["result"][0]["lang"], "en");
}

#[test]
fn phrase_with_an_unknown_last_token_finds_nothing() {
    let table = "id,artist,name\nt1,Panic! At The Disco,High Hopes\n";
    let words = words_of(table, Conjunction::AnyWord);
    let phrases = phrases_of(table);
    assert_eq!(search(&words, &phrases, "high hopes ololo").unwrap(), EMPTY);
}

#[test]
fn unknown_single_token_finds_nothing() {
    let words = words_of(TABLE, Conjunction::AnyWord);
    let phrases = phrases_of(TABLE);
    assert_eq!(search(&words, &phrases, "xyz123").unwrap(), EMPTY);
}

#[test]
fn every_match_carries_the_display_name_and_the_language_of_its_record() {
    let table = "id,artist,name\nx1,Rush,2112\nt3,Кино,Группа крови на рукаве\nt1,P,High Hopes\n";
    let words = words_of(table, Conjunction::AnyWord);
    let phrases = phrases_of(table);
    for (query, id, raw, lang) in [
        ("hopes", "t1", "High Hopes", "en"),
        ("high hopes", "t1", "High Hopes", "en"),
        ("группа", "t3", "Группа крови на рукаве", "ru"),
        ("2112", "x1", "2112", "unknown"),
    ] {
        let answer = search(&words, &phrases, query).unwrap();
        let parsed: serde_json::Value = serde_json::from_str(&answer).unwrap();
        let matches = parsed["result"].as_array().unwrap();
        assert_eq!(matches.len(), 1, "{:?}", query);
        assert_eq!(matches[0]["track_id"], id);
        assert_eq!(matches[0]["name_raw"], raw);
        assert_eq!(matches[0]["lang"], lang);
    }
}

#[test]
fn an_unfinished_last_token_is_no_phrase() {
    let words = words_of(TABLE, Conjunction::AnyWord);
    let phrases = phrases_of(TABLE);
    assert_eq!(search(&words, &phrases, "high ho").unwrap(), EMPTY);
}

#[test]
fn repeated_spaces_are_passed_through() {
    let words = words_of(TABLE, Conjunction::AnyWord);
    let phrases = phrases_of(TABLE);
    assert_eq!(search(&words, &phrases, "high  hopes").unwrap(), EMPTY);
    assert_eq!(search(&words, &phrases, "high ").unwrap(), EMPTY);
    assert_eq!(search(&words, &phrases, " high").unwrap(), EMPTY);
}

#[test]
fn the_composer_does_not_lower_the_tokens() {
    let words = words_of(TABLE, Conjunction::AnyWord);
    let phrases = phrases_of(TABLE);
    assert_eq!(search(&words, &phrases, "HOPES").unwrap(), EMPTY);
}

#[test]
fn a_token_outside_the_grammar_fails_the_request() {
    let words = words_of(TABLE, Conjunction::AnyWord);
    let phrases = phrases_of(TABLE);
    assert_eq!(search(&words, &phrases, "rhapsody:"), Err(SearchError::MalformedQuery));
    assert_eq!(search(&words, &phrases, "\"high"), Err(SearchError::MalformedQuery));
}

#[test]
fn at_most_fifty_matches_come_back() {
    let mut table = String::from("id,artist,name\n");
    for number in 0..60 {
        table.push_str(&format!("t{},a,Hopes {}\n", number, number));
    }
    let words = words_of(&table, Conjunction::AnyWord);
    let phrases = phrases_of(&table);
    assert_eq!(identifiers(&search(&words, &phrases, "hopes").unwrap()).len(), 50);
    let session = PhraseSession::open(&phrases).unwrap();
    let found = session.evaluate(&compose(&strings(&["hopes"]), &strings(&[]))).unwrap();
    assert_eq!(found.len(), 50);
}

#[test]
fn search_in_runs_on_open_sessions() {
    let words = words_of(TABLE, Conjunction::AnyWord);
    let phrases = phrases_of(TABLE);
    let word_session = WordSession::open(&words).unwrap();
    let phrase_session = PhraseSession::open(&phrases).unwrap();
    let found = search_in(&word_session, &phrase_session, "bohemian rhapsody").unwrap();
    assert_eq!(found.len(), 1);
    assert_eq!(found[0].identifier, "t4");
    assert_eq!(found[0].searchable_name, "bohemian rhapsody");
    assert_eq!(found[0].display_name, "Bohemian Rhapsody");
    assert_eq!(found[0].language, "en");
    assert_eq!(search_in(&word_session, &phrase_session, " \t").unwrap(), vec![]);
}

#[test]
fn plan_of_a_blank_text_is_nothing() {
    assert_eq!(plan(""), Plan::Nothing);
    assert_eq!(plan("  \t"), Plan::Nothing);
}

#[test]
fn plan_of_a_word_is_single() {
    assert_eq!(plan("hopes"), Plan::Single { tokens: strings(&["hopes"]) });
    assert_eq!(plan("ho\tpes"), Plan::Single { tokens: strings(&["ho\tpes"]) });
}

#[test]
fn plan_of_several_pieces_is_multiple() {
    assert_eq!(
        plan("high hopes"),
        Plan::Multiple { tokens: strings(&["high", "hopes"]), partial: Some("hopes".to_string()) }
    );
    assert_eq!(
        plan("high  ho "),
        Plan::Multiple { tokens: strings(&["high", "", "ho", ""]), partial: None }
    );
    assert_eq!(
        plan(" x"),
        Plan::Multiple { tokens: strings(&["", "x"]), partial: Some("x".to_string()) }
    );
    assert_eq!(
        plan("x \t"),
        Plan::Multiple { tokens: strings(&["x", "\t"]), partial: None }
    );
}

#[test]
fn the_search_escalates_only_without_matches() {
    assert_eq!(after_exact_lookup(Vec::new()), Escalation::Escalate);
    let words = words_of(TABLE, Conjunction::AnyWord);
    let phrases = phrases_of(TABLE);
    let _ = words;
    let session = PhraseSession::open(&phrases).unwrap();
    let found = session.evaluate(&compose(&strings(&["rhapsody"]), &strings(&[]))).unwrap();
    let again = session.evaluate(&compose(&strings(&["rhapsody"]), &strings(&[]))).unwrap();
    assert_eq!(again.len(), 1);
    assert_eq!(after_exact_lookup(found), Escalation::Answer { results: again });
}

#[test]
fn evaluate_follows_the_shape_of_the_query() {
    let phrases = phrases_of(TABLE);
    let session = PhraseSession::open(&phrases).unwrap();
    let ids = |query: &Query| -> Vec<String> {
        session.evaluate(query).unwrap().into_iter().map(|found| found.identifier).collect()
    };
    assert_eq!(ids(&compose(&strings(&["high", "hopes"]), &strings(&["dreams"]))), vec!["t2"]);
    assert_eq!(
        sorted(ids(&compose(&strings(&["high", "hopes"]), &strings(&["dreams", "hopes"])))),
        vec!["t1", "t2"]
    );
    assert_eq!(ids(&compose(&strings(&["hopes", "high"]), &strings(&["hopes"]))), Vec::<String>::new());
    assert_eq!(ids(&compose(&strings(&["high", "hopes"]), &strings(&[]))), Vec::<String>::new());
    assert_eq!(ids(&compose_compound(&strings(&["bohemian"]), &strings(&["rhapsody"]))), vec!["t4"]);
    assert_eq!(ids(&compose_compound(&strings(&["bohemian"]), &strings(&["hopes"]))), Vec::<String>::new());
    assert_eq!(ids(&Query::Phrase { terms: strings(&[]) }), Vec::<String>::new());
    assert_eq!(ids(&Query::Boolean { clauses: vec![] }), Vec::<String>::new());
    let either = Query::Boolean {
        clauses: vec![
            (Occur::Should, Query::Term { value: "rhapsody".to_string() }),
            (Occur::Should, Query::Term { value: "крови".to_string() }),
        ],
    };
    assert_eq!(sorted(ids(&either)), vec!["t3", "t4"]);
}

#[test]
fn suggestions_come_without_repeats() {
    let words = words_of(TABLE, Conjunction::AnyWord);
    let session = WordSession::open(&words).unwrap();
    assert_eq!(session.structured_lookup("ho").unwrap(), vec!["hopes", "hopes"]);
    assert_eq!(resolve(&session, "ho").unwrap(), vec!["hopes"]);
    assert_eq!(sorted(resolve(&session, "hig hop").unwrap()), vec!["high", "hopes"]);
}

#[test]
fn the_fallback_is_used_only_when_the_structured_lookup_finds_nothing() {
    let words = words_of(TABLE, Conjunction::AnyWord);
    let session = WordSession::open(&words).unwrap();
    assert_eq!(
        sorted(session.fuzzy_lookup("ho").unwrap()),
        vec!["bohemian", "high", "high", "hopes", "hopes"]
    );
    assert_eq!(resolve(&session, "ho").unwrap(), vec!["hopes"]);
    assert_eq!(session.structured_lookup("dreems").unwrap(), Vec::<String>::new());
    assert_eq!(resolve(&session, "dreems").unwrap(), vec!["dreams"]);
}

#[test]
fn the_fallback_looks_the_token_up_in_lower_case() {
    let words = words_of(TABLE, Conjunction::AnyWord);
    let session = WordSession::open(&words).unwrap();
    assert_eq!(session.structured_lookup("HOPES").unwrap(), Vec::<String>::new());
    assert_eq!(session.fuzzy_lookup("HOPES").unwrap(), Vec::<String>::new());
    assert_eq!(resolve(&session, "HOPES").unwrap(), vec!["hopes"]);
}

#[test]
fn a_token_far_from_every_word_has_no_suggestions() {
    let words = words_of(TABLE, Conjunction::AnyWord);
    let session = WordSession::open(&words).unwrap();
    assert_eq!(resolve(&session, "xyz123").unwrap(), Vec::<String>::new());
}

#[test]
fn a_blank_token_has_no_suggestions() {
    let words = words_of(TABLE, Conjunction::AnyWord);
    let session = WordSession::open(&words).unwrap();
    assert_eq!(resolve(&session, "").unwrap(), Vec::<String>::new());
    assert_eq!(resolve(&session, "  \t").unwrap(), Vec::<String>::new());
}

#[test]
fn whitespace_around_a_token_is_tolerated() {
    let words = words_of(TABLE, Conjunction::AnyWord);
    let session = WordSession::open(&words).unwrap();
    assert_eq!(resolve(&session, " hopes ").unwrap(), vec!["hopes"]);
}

#[test]
fn at_most_ten_suggestions_come_back() {
    let mut table = String::from("id,artist,name\n");
    for number in 0..30 {
        table.push_str(&format!("t{},a,hop{}\n", number, number));
    }
    let words = words_of(&table, Conjunction::AnyWord);
    let session = WordSession::open(&words).unwrap();
    assert_eq!(session.structured_lookup("hop").unwrap().len(), 10);
    assert_eq!(resolve(&session, "hop").unwrap().len(), 10);
}

#[test]
fn the_conjunction_mode_decides_how_bare_words_combine() {
    let any = words_of(TABLE, Conjunction::AnyWord);
    let all = words_of(TABLE, Conjunction::AllWords);
    let any_session = WordSession::open(&any).unwrap();
    let all_session = WordSession::open(&all).unwrap();
    assert_eq!(
        sorted(any_session.structured_lookup("hig hop").unwrap()),
        vec!["high", "high", "hopes", "hopes"]
    );
    assert_eq!(all_session.structured_lookup("hig hop").unwrap(), Vec::<String>::new());
    assert_eq!(all_session.structured_lookup("hop").unwrap(), vec!["hopes", "hopes"]);
}

#[test]
fn the_fields_are_found_by_their_names() {
    let schema = init_phrases_schema();
    assert_eq!(field_number(&schema, "track_id"), Ok(0));
    assert_eq!(field_number(&schema, "name"), Ok(1));
    assert_eq!(field_number(&schema, "raw_name"), Ok(2));
    assert_eq!(field_number(&schema, "lang"), Ok(3));
    assert_eq!(field_number(&schema, "word"), Err(SearchError::MissingField));
    assert_eq!(
        record_fields(&schema),
        Ok(RecordFields { identifier: 0, searchable_name: 1, display_name: 2, language: 3 })
    );
    assert_eq!(word_field(&init_words_schema()), Ok(0));
}

#[test]
fn a_schema_without_the_fields_is_refused() {
    assert_eq!(record_fields(&init_words_schema()), Err(SearchError::MissingField));
    assert_eq!(word_field(&init_phrases_schema()), Err(SearchError::MissingField));
    let mut builder = Schema::builder();
    builder.add_text_field("track_id", STRING | STORED);
    builder.add_text_field("name", TEXT | STORED);
    builder.add_text_field("lang", STRING | STORED);
    assert_eq!(record_fields(&builder.build()), Err(SearchError::MissingField));
}

#[test]
fn a_session_is_refused_on_an_index_without_the_fields() {
    let phrases = phrases_with(init_words_schema());
    assert!(matches!(PhraseSession::open(&phrases), Err(SearchError::MissingField)));
    let words = words_with(init_phrases_schema());
    assert!(matches!(WordSession::open(&words), Err(SearchError::MissingField)));
}

#[test]
fn a_session_is_refused_where_the_searched_field_is_not_indexed() {
    let mut builder = Schema::builder();
    builder.add_text_field("track_id", STRING | STORED);
    builder.add_text_field("name", STORED);
    builder.add_text_field("raw_name", TEXT | STORED);
    builder.add_text_field("lang", STRING | STORED);
    let phrases = phrases_with(builder.build());
    assert!(matches!(PhraseSession::open(&phrases), Err(SearchError::MissingField)));
    let mut builder = Schema::builder();
    builder.add_text_field("word", STORED);
    let words = words_with(builder.build());
    assert!(matches!(WordSession::open(&words), Err(SearchError::MissingField)));
}

#[test]
fn a_session_reads_the_fields_wherever_the_schema_has_them() {
    let mut builder = Schema::builder();
    let lang = builder.add_text_field("lang", STRING | STORED);
    let raw_name = builder.add_text_field("raw_name", TEXT | STORED);
    builder.add_text_field("extra", TEXT | STORED);
    let name = builder.add_text_field("name", TEXT | STORED);
    let track_id = builder.add_text_field("track_id", STRING | STORED);
    let schema = builder.build();
    let index = Index::create_in_ram(schema.clone());
    let mut writer = index.writer(50_000_000).unwrap();
    let mut document = Document::default();
    document.add_text(lang, "en");
    document.add_text(raw_name, "High Hopes");
    document.add_text(name, "high hopes");
    document.add_text(track_id, "t1");
    writer.add_document(document);
    writer.commit().unwrap();
    let session = PhraseSession::over(index.reader().unwrap().searcher()).unwrap();
    assert_eq!(
        session.field_numbers(),
        RecordFields { identifier: 4, searchable_name: 3, display_name: 1, language: 0 }
    );
    let found = session.evaluate(&Query::Term { value: "hopes".to_string() }).unwrap();
    assert_eq!(found.len(), 1);
    assert_eq!(found[0].identifier, "t1");
    assert_eq!(found[0].display_name, "High Hopes");
    assert_eq!(found[0].language, "en");
}

#[test]
fn a_document_without_one_of_the_texts_fails_the_request() {
    let schema = init_phrases_schema();
    let index = apply_phrases_index_tokenizator(Index::create_in_ram(schema.clone()));
    let mut writer = index.writer(50_000_000).unwrap();
    let mut document = Document::default();
    document.add_text(Field::from_field_id(1), "high hopes");
    writer.add_document(document);
    writer.commit().unwrap();
    let session = PhraseSession::over(index.reader().unwrap().searcher()).unwrap();
    assert_eq!(
        session.evaluate(&Query::Term { value: "hopes".to_string() }),
        Err(SearchError::MalformedRecord)
    );
}

#[test]
fn the_word_schema_has_the_word_field_indexed_by_its_leading_pieces() {
    let schema = init_words_schema();
    let entries: Vec<_> = schema.fields().collect();
    assert_eq!(entries.len(), 1);
    let (field, entry) = &entries[0];
    assert_eq!(field.field_id(), 0);
    assert_eq!(entry.name(), "word");
    assert!(entry.is_stored());
    match entry.field_type() {
        tantivy::schema::FieldType::Str(options) => {
            let indexing = options.get_indexing_options().unwrap();
            assert_eq!(indexing.tokenizer(), "ngram");
            assert_eq!(
                indexing.index_option(),
                tantivy::schema::IndexRecordOption::WithFreqsAndPositions
            );
        }
        _ => panic!("the word field is no text field"),
    }
}

#[test]
fn the_phrase_schema_has_the_four_fields_of_a_record() {
    let schema = init_phrases_schema();
    let described: Vec<(String, bool, String, tantivy::schema::IndexRecordOption)> = schema
        .fields()
        .map(|(_, entry)| match entry.field_type() {
            tantivy::schema::FieldType::Str(options) => {
                let indexing = options.get_indexing_options().unwrap();
                (
                    entry.name().to_string(),
                    entry.is_stored(),
                    indexing.tokenizer().to_string(),
                    indexing.index_option(),
                )
            }
            _ => panic!("a field of the phrase index is no text field"),
        })
        .collect();
    let basic = tantivy::schema::IndexRecordOption::Basic;
    let positions = tantivy::schema::IndexRecordOption::WithFreqsAndPositions;
    assert_eq!(
        described,
        vec![
            ("track_id".to_string(), true, "raw".to_string(), basic),
            ("name".to_string(), true, "phrases".to_string(), positions),
            ("raw_name".to_string(), true, "default".to_string(), positions),
            ("lang".to_string(), true, "raw".to_string(), basic),
        ]
    );
}

#[test]
fn the_analyzers_are_registered_under_their_names() {
    let tokens = |index: &Index, name: &str, text: &str| -> Vec<String> {
        let analyzer = index.tokenizers().get(name).unwrap();
        let mut stream = analyzer.token_stream(text);
        let mut tokens = Vec::new();
        while stream.advance() {
            tokens.push(stream.token().text.clone());
        }
        tokens
    };
    let words = apply_words_index_tokenizator(Index::create_in_ram(init_words_schema()));
    assert_eq!(tokens(&words, "word", "High Hopes, running"), vec!["high", "hope", "run"]);
    assert_eq!(tokens(&words, "ngram", "hopes"), vec!["h", "ho", "hop", "hope", "hopes"]);
    assert_eq!(tokens(&words, "ngram", "abcdefghijkl").len(), 10);
    assert!(words.tokenizers().get("phrases").is_none());
    let phrases = apply_phrases_index_tokenizator(Index::create_in_ram(init_phrases_schema()));
    assert_eq!(tokens(&phrases, "phrases", "High Hopes, RUNNING"), vec!["high", "hopes", "running"]);
    assert!(phrases.tokenizers().get("ngram").is_none());
}

#[test]
fn a_phrase_on_a_field_without_positions_is_an_engine_fault() {
    let mut builder = Schema::builder();
    builder.add_text_field("track_id", STRING | STORED);
    builder.add_text_field("name", STRING | STORED);
    builder.add_text_field("raw_name", TEXT | STORED);
    builder.add_text_field("lang", STRING | STORED);
    let phrases = phrases_with(builder.build());
    let session = PhraseSession::open(&phrases).unwrap();
    assert_eq!(
        session.evaluate(&Query::Phrase { terms: strings(&["high", "hopes"]) }),
        Err(SearchError::EngineFault)
    );
    assert_eq!(session.evaluate(&Query::Term { value: "high".to_string() }), Ok(vec![]));
}

#[test]
fn a_word_session_is_refused_on_a_schema_with_a_field_that_is_no_indexed_text() {
    let mut builder = Schema::builder();
    builder.add_text_field("word", TEXT | STORED);
    builder.add_text_field("note", STORED);
    assert!(matches!(
        WordSession::open(&words_with(builder.build())),
        Err(SearchError::MissingField)
    ));
    let mut builder = Schema::builder();
    builder.add_text_field("word", TEXT | STORED);
    builder.add_facet_field("kind");
    assert!(matches!(
        WordSession::open(&words_with(builder.build())),
        Err(SearchError::MissingField)
    ));
    let mut builder = Schema::builder();
    builder.add_facet_field("word");
    assert!(matches!(
        WordSession::open(&words_with(builder.build())),
        Err(SearchError::MissingField)
    ));
    let mut builder = Schema::builder();
    builder.add_text_field("word", TEXT | STORED);
    builder.add_u64_field("count", tantivy::schema::INDEXED);
    assert!(matches!(
        WordSession::open(&words_with(builder.build())),
        Err(SearchError::MissingField)
    ));
}

#[test]
fn a_word_session_is_opened_on_indexed_text_fields() {
    let mut builder = Schema::builder();
    builder.add_text_field("other", STRING);
    builder.add_text_field("word", TEXT | STORED);
    assert!(WordSession::open(&words_with(builder.build())).is_ok());
    assert!(holds_text_only(&init_words_schema()));
    assert!(holds_text_only(&init_phrases_schema()));
    assert!(holds_text_only(&Schema::builder().build()));
}

#[test]
fn a_range_over_the_word_field_is_looked_up() {
    let words = words_of(TABLE, Conjunction::AnyWord);
    let session = WordSession::open(&words).unwrap();
    assert_eq!(session.structured_lookup("word:[* TO *]").unwrap().len(), 10);
    assert_eq!(
        session.structured_lookup("note:[* TO *]"),
        Err(SearchError::MalformedQuery)
    );
    let phrases = phrases_of(TABLE);
    assert_eq!(search(&words, &phrases, "word:[*\tTO\t*]").unwrap(), EMPTY);
}
