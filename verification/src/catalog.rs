//! What goes into the two indices: from the text of the source table to the
//! records of the phrase index and the entries of the word index, each as
//! the plain values of the document to store.

use vstd::prelude::*;
use crate::engine::doc_view;
use crate::index::PhraseSession;
use crate::record::{
    distinct_fields, first_text_of, result_of, RecordFields, SearchResultView, StoredDoc,
};
use crate::text::{lowercase, split_on_space, split_spaces, texts, to_lowercase};

verus! {

/// The languages that the detector tells apart. The variants are the detector's own.
#[verifier::external_type_specification]
pub struct ExLang(whatlang::Lang);

/// An error of the CSV reader.
#[verifier::external_type_specification]
#[verifier::external_body]
pub struct ExCsvError(csv::Error);

/// The language that the detector names for a text when it is told to
/// choose among `whitelist`, if it names one.
pub uninterp spec fn detection(whitelist: Seq<whatlang::Lang>, text: Seq<char>) -> Option<
    whatlang::Lang,
>;

/// The records that the CSV reader reads from a text with its default
/// settings, the header line aside, each as its fields; `None` where the
/// reader reports an error.
pub uninterp spec fn csv_rows(text: Seq<char>) -> Option<Seq<Seq<Seq<char>>>>;

/// The texts that the rows of a table hold.
pub open spec fn rows_view(rows: Seq<Vec<String>>) -> Seq<Seq<Seq<char>>> {
    Seq::new(rows.len(), |i: int| texts(rows[i]@))
}

/// `Detector::detect_lang` on a detector made by `Detector::with_whitelist`.
#[verifier::external_body]
fn detect_among(whitelist: Vec<whatlang::Lang>, text: &str) -> (detected: Option<whatlang::Lang>)
    ensures
        detected == detection(whitelist@, text@),
{
    whatlang::Detector::with_whitelist(whitelist).detect_lang(text)
}

/// `Reader::records` on a reader made by `Reader::from_reader` over the
/// bytes of `text`: every record with its fields as strings, or the first
/// error that the reader reports.
#[verifier::external_body]
fn read_records(text: &str) -> (rows: Result<Vec<Vec<String>>, csv::Error>)
    ensures
        rows matches Ok(read) ==> csv_rows(text@) == Some(rows_view(read@)),
        rows is Err ==> csv_rows(text@) is None,
{
    let mut reader = csv::Reader::from_reader(text.as_bytes());
    reader.records().map(|row| row.map(|fields| fields.iter().map(String::from).collect())).collect()
}

/// The language of a record, as the catalog tells languages apart.
#[derive(Clone, Copy, PartialEq, Eq, Structural, Debug)]
pub enum RecordLanguage {
    English,
    Russian,
    Unknown,
}

/// The label under which a language is stored.
pub open spec fn label_of(language: RecordLanguage) -> Seq<char> {
    match language {
        RecordLanguage::English => "en"@,
        RecordLanguage::Russian => "ru"@,
        RecordLanguage::Unknown => "unknown"@,
    }
}

/// The language that the catalog records for what the detector named.
pub open spec fn language_for(detected: Option<whatlang::Lang>) -> RecordLanguage {
    match detected {
        Some(whatlang::Lang::Eng) => RecordLanguage::English,
        Some(whatlang::Lang::Rus) => RecordLanguage::Russian,
        _ => RecordLanguage::Unknown,
    }
}

/// The languages that the detector is told to choose among.
pub open spec fn known_languages() -> Seq<whatlang::Lang> {
    seq![whatlang::Lang::Eng, whatlang::Lang::Rus]
}

/// The language that the catalog records for a text.
pub open spec fn text_language(text: Seq<char>) -> RecordLanguage {
    language_for(detection(known_languages(), text))
}

impl RecordLanguage {
    /// The label under which the language is stored: `en`, `ru` or `unknown`.
    pub fn label(&self) -> (label: &'static str)
        ensures
            label@ == label_of(*self),
    {
        match self {
            RecordLanguage::English => "en",
            RecordLanguage::Russian => "ru",
            RecordLanguage::Unknown => "unknown",
        }
    }

    /// The language that the catalog records for what the detector named:
    /// English and Russian as they are, anything else and nothing as unknown.
    pub fn of(detected: Option<whatlang::Lang>) -> (language: RecordLanguage)
        ensures
            language == language_for(detected),
    {
        match detected {
            Some(whatlang::Lang::Eng) => RecordLanguage::English,
            Some(whatlang::Lang::Rus) => RecordLanguage::Russian,
            _ => RecordLanguage::Unknown,
        }
    }

    /// Detects the language of a text among English and Russian.
    pub fn detect(text: &str) -> (language: RecordLanguage)
        ensures
            language == text_language(text@),
    {
        let mut whitelist: Vec<whatlang::Lang> = Vec::new();
        whitelist.push(whatlang::Lang::Eng);
        whitelist.push(whatlang::Lang::Rus);
        assert(whitelist@ == known_languages());
        RecordLanguage::of(detect_among(whitelist, text))
    }
}

/// The label of the language of a text.
pub fn get_text_lang(text: &str) -> (label: &'static str)
    ensures
        label@ == label_of(text_language(text@)),
{
    RecordLanguage::detect(text).label()
}

/// A record of the catalog.
#[derive(Debug, PartialEq, Eq)]
pub struct CatalogRecord {
    pub identifier: String,
    pub searchable_name: String,
    pub display_name: String,
    pub language: RecordLanguage,
}

/// A record of the catalog as a mathematical value.
pub struct CatalogRecordView {
    pub identifier: Seq<char>,
    pub searchable_name: Seq<char>,
    pub display_name: Seq<char>,
    pub language: RecordLanguage,
}

impl View for CatalogRecord {
    type V = CatalogRecordView;

    open spec fn view(&self) -> CatalogRecordView {
        CatalogRecordView {
            identifier: self.identifier@,
            searchable_name: self.searchable_name@,
            display_name: self.display_name@,
            language: self.language,
        }
    }
}

/// The views of a vector of records.
pub open spec fn record_views(records: Seq<CatalogRecord>) -> Seq<CatalogRecordView> {
    Seq::new(records.len(), |i: int| records[i]@)
}

/// The record for an identifier and a name: the name as it is for display,
/// in lower case for the search, and with the language detected for it.
pub open spec fn record_for(identifier: Seq<char>, name: Seq<char>) -> CatalogRecordView {
    CatalogRecordView {
        identifier,
        searchable_name: lowercase(name),
        display_name: name,
        language: text_language(name),
    }
}

/// Makes the record for an identifier and a name.
pub fn catalog_record(identifier: &str, name: &str) -> (record: CatalogRecord)
    ensures
        record@ == record_for(identifier@, name@),
{
    CatalogRecord {
        identifier: identifier.to_owned(),
        searchable_name: to_lowercase(name),
        display_name: name.to_owned(),
        language: RecordLanguage::detect(name),
    }
}

/// The document that stores a record: its identifier, its searchable name,
/// its display name and the label of its language, in this order, each
/// under the number of its field.
pub open spec fn document_of(fields: RecordFields, record: CatalogRecordView) -> StoredDoc {
    seq![
        (fields.identifier, Some(record.identifier)),
        (fields.searchable_name, Some(record.searchable_name)),
        (fields.display_name, Some(record.display_name)),
        (fields.language, Some(label_of(record.language))),
    ]
}

/// A match that is read from the stored document of a record carries the
/// record's identifier, its two names and the label of its language as
/// they went in, whatever the score.
pub proof fn lemma_record_round_trip(fields: RecordFields, record: CatalogRecordView, score: Seq<char>)
    requires
        distinct_fields(fields),
    ensures
        result_of(score, document_of(fields, record), fields) == Some(
            SearchResultView {
                score,
                identifier: record.identifier,
                searchable_name: record.searchable_name,
                display_name: record.display_name,
                language: label_of(record.language),
            },
        ),
{
    let doc = document_of(fields, record);
    let second = doc.drop_first();
    let third = second.drop_first();
    let fourth = third.drop_first();
    assert(second[0] == doc[1]);
    assert(third[0] == doc[2]);
    assert(fourth[0] == doc[3]);
    assert(first_text_of(doc, fields.identifier) == Some(record.identifier));
    assert(first_text_of(second, fields.searchable_name) == Some(record.searchable_name));
    assert(first_text_of(third, fields.display_name) == Some(record.display_name));
    assert(first_text_of(fourth, fields.language) == Some(label_of(record.language)));
    assert(first_text_of(third, fields.language) == Some(label_of(record.language)));
    assert(first_text_of(second, fields.language) == Some(label_of(record.language)));
    assert(first_text_of(second, fields.display_name) == Some(record.display_name));
}

/// Where a session of the phrase index stores the document of a record at
/// an address, the match that it reads there carries the record's
/// identifier, its two names and the label of its language, whatever the
/// score. The numbers of the fields of a session are all different, as
/// `PhraseSession::field_numbers` shows.
pub proof fn lemma_stored_record_comes_back(
    session: PhraseSession,
    address: (u32, u32),
    record: CatalogRecordView,
    score: Seq<char>,
)
    requires
        distinct_fields(session.fields()),
        session.stored().contains_key(address),
        session.stored()[address] == document_of(session.fields(), record),
    ensures
        session.result_at(address, score) == Some(
            SearchResultView {
                score,
                identifier: record.identifier,
                searchable_name: record.searchable_name,
                display_name: record.display_name,
                language: label_of(record.language),
            },
        ),
        session.holds(session.result_at(address, score)->0),
{
    lemma_record_round_trip(session.fields(), record, score);
    let result = session.result_at(address, score)->0;
    assert(session.result_at(address, result.score) == Some(result));
}

/// Makes the document that stores a record.
pub fn phrase_document(fields: RecordFields, record: &CatalogRecord) -> (doc: Vec<
    (u32, Option<String>),
>)
    ensures
        doc_view(doc@) == document_of(fields, record@),
{
    let mut doc: Vec<(u32, Option<String>)> = Vec::new();
    doc.push((fields.identifier, Some(record.identifier.clone())));
    doc.push((fields.searchable_name, Some(record.searchable_name.clone())));
    doc.push((fields.display_name, Some(record.display_name.clone())));
    doc.push((fields.language, Some(record.language.label().to_owned())));
    assert(doc_view(doc@) =~= document_of(fields, record@));
    doc
}

/// The entries that a name adds to the word index: each of its pieces
/// between single spaces, in lower case, once for every time it occurs.
pub open spec fn words_of(name: Seq<char>) -> Seq<Seq<char>> {
    Seq::new(split_spaces(name).len(), |i: int| lowercase(split_spaces(name)[i]))
}

/// Makes the entries that a name adds to the word index.
pub fn word_entries(name: &str) -> (words: Vec<String>)
    ensures
        texts(words@) == words_of(name@),
{
    let pieces = split_on_space(name);
    let mut words: Vec<String> = Vec::new();
    let mut i: usize = 0;
    assert(texts(pieces@).len() == pieces.len());
    while i < pieces.len()
        invariant
            i <= pieces.len(),
            words.len() == i,
            texts(pieces@) == split_spaces(name@),
            forall|k: int| 0 <= k < i ==> (#[trigger] words[k])@ == lowercase(texts(pieces@)[k]),
        decreases pieces.len() - i,
    {
        assert(texts(pieces@)[i as int] == pieces[i as int]@);
        words.push(to_lowercase(pieces[i].as_str()));
        i += 1;
    }
    assert(texts(words@) =~= words_of(name@));
    words
}

/// Makes the document that stores one entry of the word index.
pub fn word_document(field: u32, word: &str) -> (doc: Vec<(u32, Option<String>)>)
    ensures
        doc_view(doc@) == seq![(field, Some(word@))],
        first_text_of(doc_view(doc@), field) == Some(word@),
{
    let mut doc: Vec<(u32, Option<String>)> = Vec::new();
    doc.push((field, Some(word.to_owned())));
    assert(doc_view(doc@) =~= seq![(field, Some(word@))]);
    doc
}

/// Why the source table could not be taken in.
#[derive(Clone, Copy, PartialEq, Eq, Structural, Debug)]
pub enum CatalogError {
    /// The text is not a table that the CSV reader accepts.
    Unreadable,
    /// The record of this number, counted from zero after the header line,
    /// ends before the column of the name.
    ShortRow { row: usize },
    /// The record of this number, counted in the same way, has the
    /// identifier of a record before it.
    RepeatedIdentifier { row: usize },
}

/// The column of the source table that holds the identifier.
pub const IDENTIFIER_COLUMN: usize = 0;

/// The column of the source table that holds the name.
pub const NAME_COLUMN: usize = 2;

/// One record of the source table, as far as the catalog reads it.
#[derive(Debug, PartialEq, Eq)]
pub struct SourceRow {
    pub identifier: String,
    pub name: String,
}

/// The identifier and the name of a record of the source table.
pub open spec fn source_of(row: Seq<Seq<char>>) -> (Seq<char>, Seq<char>) {
    (row[IDENTIFIER_COLUMN as int], row[NAME_COLUMN as int])
}

/// The identifiers and names that a vector of source rows holds.
pub open spec fn source_views(rows: Seq<SourceRow>) -> Seq<(Seq<char>, Seq<char>)> {
    Seq::new(rows.len(), |i: int| (rows[i].identifier@, rows[i].name@))
}

/// Whether every record reaches the column of the name.
pub open spec fn complete(rows: Seq<Seq<Seq<char>>>) -> bool {
    forall|i: int| 0 <= i < rows.len() ==> (#[trigger] rows[i]).len() > NAME_COLUMN
}

/// Whether no two records of a table have the same identifier.
pub open spec fn distinct_identifiers(rows: Seq<Seq<Seq<char>>>) -> bool {
    forall|i: int, j: int|
        0 <= i < j < rows.len() ==> (#[trigger] rows[i])[IDENTIFIER_COLUMN as int] != (
        #[trigger] rows[j])[IDENTIFIER_COLUMN as int]
}

/// Whether no two rows have the same identifier.
pub open spec fn identifiers_differ(source: Seq<SourceRow>) -> bool {
    forall|i: int, j: int|
        0 <= i < j < source.len() ==> (#[trigger] source[i]).identifier@ != (
        #[trigger] source[j]).identifier@
}

/// Whether one of `rows` has the identifier `identifier`.
fn has_identifier(rows: &Vec<SourceRow>, identifier: &String) -> (found: bool)
    ensures
        found <==> exists|k: int| 0 <= k < rows.len() && (#[trigger] rows[k]).identifier@ == identifier@,
{
    let mut i: usize = 0;
    while i < rows.len()
        invariant
            i <= rows.len(),
            forall|k: int| 0 <= k < i ==> (#[trigger] rows[k]).identifier@ != identifier@,
        decreases rows.len() - i,
    {
        if rows[i].identifier == *identifier {
            return true;
        }
        i += 1;
    }
    false
}

/// Whether no two rows have the same identifier.
pub fn all_identifiers_differ(source: &Vec<SourceRow>) -> (differ: bool)
    ensures
        differ == identifiers_differ(source@),
{
    let mut i: usize = 0;
    while i < source.len()
        invariant
            i <= source.len(),
            forall|a: int, b: int|
                0 <= a < b < i ==> (#[trigger] source[a]).identifier@ != (
                #[trigger] source[b]).identifier@,
        decreases source.len() - i,
    {
        let mut k: usize = 0;
        while k < i
            invariant
                k <= i < source.len(),
                forall|a: int| 0 <= a < k ==> (#[trigger] source[a]).identifier@ != source[i as int].identifier@,
            decreases i - k,
        {
            if source[k].identifier == source[i].identifier {
                return false;
            }
            k += 1;
        }
        i += 1;
    }
    true
}

/// Reads the source table from its text: the identifier and the name of
/// every record after the header line, in order. A text that is no table is
/// refused. So is a table with a record that has no name column or has the
/// identifier of a record before it, with the number of the first such
/// record: the catalog has one record for an identifier. Every identifier
/// is compared with those before it.
pub fn read_source(text: &str) -> (source: Result<Vec<SourceRow>, CatalogError>)
    ensures
        csv_rows(text@) is None <==> (source matches Err(error) && error == CatalogError::Unreadable),
        source matches Err(CatalogError::ShortRow { row }) ==> {
            &&& csv_rows(text@) matches Some(rows)
            &&& row < rows.len()
            &&& rows[row as int].len() <= NAME_COLUMN
            &&& complete(rows.take(row as int))
            &&& distinct_identifiers(rows.take(row as int))
        },
        source matches Err(CatalogError::RepeatedIdentifier { row }) ==> {
            &&& csv_rows(text@) matches Some(rows)
            &&& row < rows.len()
            &&& complete(rows.take(row + 1))
            &&& distinct_identifiers(rows.take(row as int))
            &&& exists|before: int|
                0 <= before < row && (#[trigger] rows[before])[IDENTIFIER_COLUMN as int]
                    == rows[row as int][IDENTIFIER_COLUMN as int]
        },
        source matches Ok(read) ==> {
            &&& csv_rows(text@) matches Some(rows)
            &&& complete(rows)
            &&& distinct_identifiers(rows)
            &&& identifiers_differ(read@)
            &&& source_views(read@) == Seq::new(rows.len(), |i: int| source_of(rows[i]))
        },
{
    let rows = match read_records(text) {
        Ok(rows) => rows,
        Err(_) => { return Err(CatalogError::Unreadable); },
    };
    let ghost table = rows_view(rows@);
    let mut read: Vec<SourceRow> = Vec::new();
    let mut i: usize = 0;
    while i < rows.len()
        invariant
            i <= rows.len(),
            read.len() == i,
            table == rows_view(rows@),
            csv_rows(text@) == Some(table),
            complete(table.take(i as int)),
            distinct_identifiers(table.take(i as int)),
            identifiers_differ(read@),
            forall|k: int|
                0 <= k < i ==> ((#[trigger] read[k]).identifier@, read[k].name@) == source_of(table[k]),
        decreases rows.len() - i,
    {
        let row = &rows[i];
        assert(table[i as int] == texts(row@));
        if row.len() <= NAME_COLUMN {
            return Err(CatalogError::ShortRow { row: i });
        }
        assert(texts(row@)[IDENTIFIER_COLUMN as int] == row[IDENTIFIER_COLUMN as int]@);
        assert(texts(row@)[NAME_COLUMN as int] == row[NAME_COLUMN as int]@);
        assert forall|k: int| 0 <= k < i + 1 implies (#[trigger] table.take(i + 1)[k]).len()
            > NAME_COLUMN by {
            if k < i {
                assert(table.take(i as int)[k] == table.take(i + 1)[k]);
            }
        }
        if has_identifier(&read, &row[IDENTIFIER_COLUMN]) {
            let ghost before = choose|k: int|
                0 <= k < read.len() && (#[trigger] read[k]).identifier@ == row[IDENTIFIER_COLUMN as int]@;
            assert(table[before][IDENTIFIER_COLUMN as int] == table[i as int][IDENTIFIER_COLUMN as int]);
            return Err(CatalogError::RepeatedIdentifier { row: i });
        }
        let ghost earlier = read@;
        read.push(
            SourceRow { identifier: row[IDENTIFIER_COLUMN].clone(), name: row[NAME_COLUMN].clone() },
        );
        assert forall|a: int, b: int| 0 <= a < b < i + 1 implies (#[trigger] table.take(i + 1)[a])[IDENTIFIER_COLUMN as int]
            != (#[trigger] table.take(i + 1)[b])[IDENTIFIER_COLUMN as int] by {
            assert(table.take(i + 1)[a] == table[a]);
            assert(table.take(i + 1)[b] == table[b]);
            if b < i {
                assert(table.take(i as int)[a] == table[a]);
                assert(table.take(i as int)[b] == table[b]);
            } else {
                assert(earlier[a].identifier@ == source_of(table[a]).0);
            }
        }
        assert forall|a: int, b: int| 0 <= a < b < i + 1 implies (#[trigger] read[a]).identifier@
            != (#[trigger] read[b]).identifier@ by {
            assert(read[a] == earlier[a]);
            if b < i {
                assert(read[b] == earlier[b]);
            }
        }
        i += 1;
    }
    assert(table.take(rows.len() as int) == table);
    assert(source_views(read@) =~= Seq::new(table.len(), |i: int| source_of(table[i])));
    Ok(read)
}

/// The records of the catalog for the rows of the source table, one for
/// each, in order. No two rows have the same identifier, and so no two
/// records have.
pub fn catalog_records(source: &Vec<SourceRow>) -> (records: Vec<CatalogRecord>)
    requires
        identifiers_differ(source@),
    ensures
        records.len() == source.len(),
        forall|i: int|
            0 <= i < records.len() ==> (#[trigger] records[i])@ == record_for(
                source[i].identifier@,
                source[i].name@,
            ),
        forall|i: int, j: int|
            0 <= i < j < records.len() ==> (#[trigger] records[i]).identifier@ != (
            #[trigger] records[j]).identifier@,
{
    let mut records: Vec<CatalogRecord> = Vec::new();
    let mut i: usize = 0;
    while i < source.len()
        invariant
            i <= source.len(),
            records.len() == i,
            forall|k: int|
                0 <= k < i ==> (#[trigger] records[k])@ == record_for(
                    source[k].identifier@,
                    source[k].name@,
                ),
        decreases source.len() - i,
    {
        records.push(catalog_record(source[i].identifier.as_str(), source[i].name.as_str()));
        i += 1;
    }
    assert forall|i: int, j: int| 0 <= i < j < records.len() implies (#[trigger] records[i]).identifier@
        != (#[trigger] records[j]).identifier@ by {
        assert(records[i]@.identifier == source[i].identifier@);
        assert(records[j]@.identifier == source[j].identifier@);
    }
    records
}

/// The entries of the word index for a sequence of names: those of each
/// name, name after name.
pub open spec fn all_words(names: Seq<Seq<char>>) -> Seq<Seq<char>>
    decreases names.len(),
{
    if names.len() == 0 {
        Seq::empty()
    } else {
        all_words(names.drop_last()) + words_of(names.last())
    }
}

/// The names that a vector of source rows holds.
pub open spec fn source_names(rows: Seq<SourceRow>) -> Seq<Seq<char>> {
    Seq::new(rows.len(), |i: int| rows[i].name@)
}

/// The entries of the word index for the rows of the source table: every
/// piece of every name in lower case, repeats kept.
pub fn catalog_words(source: &Vec<SourceRow>) -> (words: Vec<String>)
    ensures
        texts(words@) == all_words(source_names(source@)),
{
    let mut words: Vec<String> = Vec::new();
    let mut i: usize = 0;
    assert(source_names(source@).take(0) == Seq::<Seq<char>>::empty());
    assert(texts(words@) == all_words(source_names(source@).take(0)));
    while i < source.len()
        invariant
            i <= source.len(),
            texts(words@) == all_words(source_names(source@).take(i as int)),
        decreases source.len() - i,
    {
        let ghost before = texts(words@);
        let ghost longer = source_names(source@).take(i + 1);
        assert(longer.drop_last() == source_names(source@).take(i as int));
        assert(longer.last() == source[i as int].name@);
        let mut entries = word_entries(source[i].name.as_str());
        let ghost added = texts(entries@);
        words.append(&mut entries);
        assert(texts(words@) =~= before + added);
        i += 1;
    }
    assert(source_names(source@).take(source.len() as int) == source_names(source@));
    words
}

} // verus!
