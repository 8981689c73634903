use fast_search::catalog::{
    all_identifiers_differ, catalog_record, catalog_records, catalog_words, get_text_lang, phrase_document, read_source,
    word_document, word_entries, CatalogError, CatalogRecord, RecordLanguage, SourceRow,
};
use fast_search::record::{record_from, RecordFields, SearchResult};

const FIELDS: RecordFields =
    RecordFields { identifier: 0, searchable_name: 1, display_name: 2, language: 3 };

fn row(identifier: &str, name: &str) -> SourceRow {
    SourceRow { identifier: identifier.to_string(), name: name.to_string() }
}

#[test]
fn labels_are_en_ru_and_unknown() {
    assert_eq!(RecordLanguage::English.label(), "en");
    assert_eq!(RecordLanguage::Russian.label(), "ru");
    assert_eq!(RecordLanguage::Unknown.label(), "unknown");
}

#[test]
fn only_english_and_russian_are_told_apart() {
    assert_eq!(RecordLanguage::of(Some(whatlang::Lang::Eng)), RecordLanguage::English);
    assert_eq!(RecordLanguage::of(Some(whatlang::Lang::Rus)), RecordLanguage::Russian);
    assert_eq!(RecordLanguage::of(Some(whatlang::Lang::Ell)), RecordLanguage::Unknown);
    assert_eq!(RecordLanguage::of(Some(whatlang::Lang::Ukr)), RecordLanguage::Unknown);
    assert_eq!(RecordLanguage::of(None), RecordLanguage::Unknown);
}

#[test]
fn english_text_is_labelled_en() {
    assert_eq!(get_text_lang("That is not Russian"), "en");
    assert_eq!(RecordLanguage::detect("High Hopes"), RecordLanguage::English);
}

#[test]
fn russian_text_is_labelled_ru() {
    assert_eq!(get_text_lang("Это точно русский текст"), "ru");
    assert_eq!(RecordLanguage::detect("Группа крови на рукаве"), RecordLanguage::Russian);
}

#[test]
fn other_text_is_labelled_unknown() {
    assert_eq!(get_text_lang("12345"), "unknown");
    assert_eq!(get_text_lang(""), "unknown");
    assert_eq!(get_text_lang("Ελληνικά"), "unknown");
}

#[test]
fn a_record_keeps_the_name_and_lowers_it_for_the_search() {
    let expected = CatalogRecord {
        identifier: "t1".to_string(),
        searchable_name: "high hopes".to_string(),
        display_name: "High Hopes".to_string(),
        language: RecordLanguage::English,
    };
    assert_eq!(catalog_record("t1", "High Hopes"), expected);
}

#[test]
fn a_russian_record_is_tagged_ru() {
    let record = catalog_record("t3", "Группа Крови на рукаве");
    assert_eq!(record.searchable_name, "группа крови на рукаве");
    assert_eq!(record.display_name, "Группа Крови на рукаве");
    assert_eq!(record.language, RecordLanguage::Russian);
}

#[test]
fn the_document_of_a_record_holds_its_four_texts_in_order() {
    let record = catalog_record("t1", "High Hopes");
    let fields = RecordFields { identifier: 7, searchable_name: 5, display_name: 3, language: 1 };
    assert_eq!(
        phrase_document(fields, &record),
        vec![
            (7, Some("t1".to_string())),
            (5, Some("high hopes".to_string())),
            (3, Some("High Hopes".to_string())),
            (1, Some("en".to_string())),
        ]
    );
}

#[test]
fn a_record_comes_back_from_its_document_as_it_went_in() {
    let record = catalog_record("t1", "High Hopes");
    let doc = phrase_document(FIELDS, &record);
    let expected = SearchResult {
        score: "0.5".to_string(),
        identifier: "t1".to_string(),
        searchable_name: "high hopes".to_string(),
        display_name: "High Hopes".to_string(),
        language: "en".to_string(),
    };
    assert_eq!(record_from("0.5".to_string(), &doc, FIELDS), Some(expected));
}

#[test]
fn the_words_of_a_name_are_its_pieces_in_lower_case() {
    assert_eq!(word_entries("High Hopes"), vec!["high", "hopes"]);
    assert_eq!(word_entries("Группа Крови"), vec!["группа", "крови"]);
}

#[test]
fn the_words_of_a_name_keep_repeats_and_empty_pieces() {
    assert_eq!(word_entries("Go  go GO"), vec!["go", "", "go", "go"]);
    assert_eq!(word_entries(""), vec![""]);
}

#[test]
fn the_document_of_a_word_holds_the_word() {
    assert_eq!(word_document(0, "hopes"), vec![(0, Some("hopes".to_string()))]);
    assert_eq!(word_document(4, ""), vec![(4, Some(String::new()))]);
}

#[test]
fn the_source_is_read_after_its_header_line() {
    let text = "id,artist,name\nt1,Panic! At The Disco,High Hopes\nt4,Queen,Bohemian Rhapsody\n";
    assert_eq!(
        read_source(text),
        Ok(vec![row("t1", "High Hopes"), row("t4", "Bohemian Rhapsody")])
    );
}

#[test]
fn the_source_takes_the_first_and_the_third_column() {
    let text = "a,b,c,d\n1,2,3,4\n";
    assert_eq!(read_source(text), Ok(vec![row("1", "3")]));
}

#[test]
fn the_source_reads_quoted_fields() {
    let text = "id,artist,name\nt9,\"Earth, Wind & Fire\",\"September, \"\"live\"\"\"\n";
    assert_eq!(read_source(text), Ok(vec![row("t9", "September, \"live\"")]));
}

#[test]
fn a_source_without_records_is_empty() {
    assert_eq!(read_source(""), Ok(vec![]));
    assert_eq!(read_source("id,artist,name\n"), Ok(vec![]));
}

#[test]
fn a_record_without_a_name_column_is_refused() {
    assert_eq!(read_source("a,b\n1,2\n3,4\n"), Err(CatalogError::ShortRow { row: 0 }));
}

#[test]
fn a_ragged_table_is_unreadable() {
    assert_eq!(read_source("a,b,c\n1,2\n"), Err(CatalogError::Unreadable));
    assert_eq!(read_source("a,b,c\n1,2,3\n4,5,6,7\n"), Err(CatalogError::Unreadable));
}

#[test]
fn every_row_gives_one_record() {
    let source = vec![row("t1", "High Hopes"), row("t2", "High Hopes"), row("t3", "Кино")];
    let records = catalog_records(&source);
    assert_eq!(records.len(), 3);
    assert_eq!(records[0], catalog_record("t1", "High Hopes"));
    assert_eq!(records[1], catalog_record("t2", "High Hopes"));
    assert_eq!(records[2], catalog_record("t3", "Кино"));
}

#[test]
fn a_repeated_identifier_is_refused() {
    assert_eq!(
        read_source("id,artist,name\nt1,a,One\nt2,b,Two\nt1,c,Three\n"),
        Err(CatalogError::RepeatedIdentifier { row: 2 })
    );
    assert_eq!(
        read_source("id,artist,name\nt1,a,One\nt1,a,One\nt1,c,Three\n"),
        Err(CatalogError::RepeatedIdentifier { row: 1 })
    );
}

#[test]
fn the_first_fault_of_a_table_is_reported() {
    assert_eq!(
        read_source("a,b\n1,2\n1,4\n"),
        Err(CatalogError::ShortRow { row: 0 })
    );
    assert_eq!(
        read_source("id,artist,name\nT1,a,One\nt1,b,Two\n"),
        Ok(vec![row("T1", "One"), row("t1", "Two")])
    );
}

#[test]
fn identifiers_are_told_to_differ_or_not() {
    assert!(all_identifiers_differ(&Vec::new()));
    assert!(all_identifiers_differ(&vec![row("t1", "a"), row("t2", "a"), row("t3", "a")]));
    assert!(!all_identifiers_differ(&vec![row("t1", "a"), row("t2", "b"), row("t1", "c")]));
    assert!(!all_identifiers_differ(&vec![row("t1", "a"), row("t2", "b"), row("t2", "c")]));
}

#[test]
fn every_piece_of_every_name_gives_one_word() {
    let source = vec![row("t1", "High Hopes"), row("t2", "High Hopes and Dreams")];
    assert_eq!(
        catalog_words(&source),
        vec!["high", "hopes", "high", "hopes", "and", "dreams"]
    );
    assert_eq!(catalog_words(&Vec::new()), Vec::<String>::new());
}
