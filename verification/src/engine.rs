//! The boundary to the index engine. Nothing in this file is proved: each
//! item states what the engine is taken to do, and the rest of the crate is
//! verified against these statements.

use vstd::prelude::*;
use crate::schema::{schema_fields, text_only, FieldView};

verus! {

/// An index of the engine.
#[verifier::external_type_specification]
#[verifier::external_body]
pub struct ExIndex(tantivy::Index);

/// The reader of an index, which keeps searchers on its latest state.
#[verifier::external_type_specification]
#[verifier::external_body]
pub struct ExIndexReader(tantivy::IndexReader);

/// When a reader takes up what was committed to its index. The variants are the engine's own.
#[verifier::external_type_specification]
pub struct ExReloadPolicy(tantivy::ReloadPolicy);

/// A searcher: one state of an index, held for reading.
#[verifier::external_type_specification]
#[verifier::external_body]
pub struct ExSearcher(tantivy::Searcher);

/// A value on loan from a pool, here a searcher from its reader.
#[verifier::external_type_specification]
#[verifier::external_body]
#[verifier::reject_recursive_types(T)]
pub struct ExLeasedItem<T>(tantivy::LeasedItem<T>);

/// The engine's parser for free-text queries.
#[verifier::external_type_specification]
#[verifier::external_body]
pub struct ExQueryParser(tantivy::query::QueryParser);

/// An error of the engine.
#[verifier::external_type_specification]
#[verifier::external_body]
pub struct ExTantivyError(tantivy::TantivyError);

/// An error of the engine's query parser.
#[verifier::external_type_specification]
#[verifier::external_body]
pub struct ExQueryParserError(tantivy::query::QueryParserError);

/// A query of the engine, kept behind the engine's `Query` trait as the
/// engine hands its queries out. Nothing of it is visible but through the
/// functions below.
#[verifier::external_body]
pub struct EngineQuery {
    inner: Box<dyn tantivy::query::Query>,
}

/// One entry of a ranked result: the score as decimal text, and the address
/// of the document inside the searcher that produced it.
pub struct Hit {
    pub score: String,
    pub segment: u32,
    pub doc: u32,
}

/// The fields of the schema of the index that a searcher reads, in the
/// order of their numbers.
pub uninterp spec fn searcher_fields(searcher: tantivy::LeasedItem<tantivy::Searcher>) -> Seq<
    FieldView,
>;

/// The documents a searcher can hand out, by address (segment, number within
/// the segment). A document is its stored values in order, each with its
/// field number and, where the value is a text, that text.
pub uninterp spec fn stored_docs(searcher: tantivy::LeasedItem<tantivy::Searcher>) -> Map<
    (u32, u32),
    Seq<(u32, Option<Seq<char>>)>,
>;

/// What a query of the engine is made of.
pub enum QueryShape {
    /// The documents that have the term `text` in `field`.
    Term { field: u32, text: Seq<char>, record: tantivy::schema::IndexRecordOption },
    /// The documents that have a term within `distance` edits of `text` in `field`.
    Fuzzy { field: u32, text: Seq<char>, distance: u8, transposition: bool },
    /// The documents that have the terms `texts` side by side in `field`.
    Phrase { field: u32, texts: Seq<Seq<char>> },
    /// The documents that match every query of `required` and, where there
    /// is none, one of `optional`.
    Boolean { required: Seq<QueryShape>, optional: Seq<QueryShape> },
    /// A query of another make, of which only the fields that it reads are told.
    Other { fields: Set<u32> },
}

/// What a query is made of.
pub uninterp spec fn query_shape(query: EngineQuery) -> QueryShape;

/// What the queries of a vector are made of.
pub open spec fn query_shapes(queries: Seq<EngineQuery>) -> Seq<QueryShape> {
    Seq::new(queries.len(), |i: int| query_shape(queries[i]))
}

/// Whether evaluating a query of this shape reads `field`.
pub open spec fn shape_reads(shape: QueryShape, field: u32) -> bool
    decreases shape,
{
    match shape {
        QueryShape::Term { field: own, .. } => own == field,
        QueryShape::Fuzzy { field: own, .. } => own == field,
        QueryShape::Phrase { field: own, .. } => own == field,
        QueryShape::Boolean { required, optional } => {
            ||| exists|i: int| 0 <= i < required.len() && shape_reads(#[trigger] required[i], field)
            ||| exists|i: int| 0 <= i < optional.len() && shape_reads(#[trigger] optional[i], field)
        },
        QueryShape::Other { fields } => fields.contains(field),
    }
}

/// Whether a query of this shape can be seen to match no document of any
/// index: a boolean query one of whose required queries is such a query, or
/// which has no required query and no optional query but such ones.
pub open spec fn never_matches(shape: QueryShape) -> bool
    decreases shape,
{
    match shape {
        QueryShape::Boolean { required, optional } => {
            ||| exists|i: int| 0 <= i < required.len() && never_matches(#[trigger] required[i])
            ||| required.len() == 0 && forall|i: int|
                0 <= i < optional.len() ==> never_matches(#[trigger] optional[i])
        },
        _ => false,
    }
}

/// The numbers of the fields that evaluating the query reads.
pub open spec fn query_fields(query: EngineQuery) -> Set<u32> {
    Set::new(|field: u32| shape_reads(query_shape(query), field))
}

/// The fields of the schema that the parser resolves field names in, in
/// the order of their numbers.
pub uninterp spec fn parser_schema(parser: tantivy::query::QueryParser) -> Seq<FieldView>;

/// Whether the parser takes the bare words of a text as all required.
pub uninterp spec fn parser_requires_all(parser: tantivy::query::QueryParser) -> bool;

/// Whether `field` numbers an indexed field of the searcher's schema.
pub open spec fn is_indexed(searcher: tantivy::LeasedItem<tantivy::Searcher>, field: u32) -> bool {
    field < searcher_fields(searcher).len() && searcher_fields(searcher)[field as int].indexed()
}

/// The indexed fields of the searcher's schema.
pub open spec fn indexed_fields(searcher: tantivy::LeasedItem<tantivy::Searcher>) -> Set<u32> {
    Set::new(|field: u32| is_indexed(searcher, field))
}

/// The stored values of a document as plain values.
pub open spec fn doc_view(doc: Seq<(u32, Option<String>)>) -> Seq<(u32, Option<Seq<char>>)> {
    Seq::new(
        doc.len(),
        |i: int|
            (
                doc[i].0,
                match doc[i].1 {
                    Some(text) => Some(text@),
                    None => None,
                },
            ),
    )
}

/// `IndexReaderBuilder::try_into`, on the builder that
/// `Index::reader_builder` gives for `index`, with the reload policy set.
/// Opening the segments can fail.
#[verifier::external_body]
pub(crate) fn open_reader(index: &tantivy::Index, policy: tantivy::ReloadPolicy) -> (reader: Result<
    tantivy::IndexReader,
    tantivy::TantivyError,
>) {
    index.reader_builder().reload_policy(policy).try_into()
}

/// `IndexReader::searcher`: a searcher over the segments that the reader
/// loaded last, taken from the reader's pool. Nothing is known of what it
/// holds.
#[verifier::external_body]
pub(crate) fn acquire_searcher(reader: &tantivy::IndexReader) -> (searcher: tantivy::LeasedItem<
    tantivy::Searcher,
>) {
    reader.searcher()
}

/// `Searcher::schema`: the schema of the index that the searcher reads.
#[verifier::external_body]
pub(crate) fn searcher_schema<'a>(searcher: &'a tantivy::LeasedItem<tantivy::Searcher>) -> (schema:
    &'a tantivy::schema::Schema)
    ensures
        schema_fields(*schema) == searcher_fields(*searcher),
{
    searcher.schema()
}

/// `TermQuery::new` on the term that `text` is in `field`, reading as much
/// of each posting as `record` says.
#[verifier::external_body]
pub(crate) fn exact_term_query(
    field: u32,
    text: &str,
    record: tantivy::schema::IndexRecordOption,
) -> (query: EngineQuery)
    ensures
        query_shape(query) == (QueryShape::Term { field, text: text@, record }),
{
    let term = tantivy::Term::from_field_text(tantivy::schema::Field::from_field_id(field), text);
    EngineQuery { inner: Box::new(tantivy::query::TermQuery::new(term, record)) }
}

/// `FuzzyTermQuery::new` on the term that `text` is in `field`, for the
/// terms within `distance` edits of it.
#[verifier::external_body]
pub(crate) fn fuzzy_term_query(field: u32, text: &str, distance: u8, transposition: bool) -> (query:
    EngineQuery)
    ensures
        query_shape(query) == (QueryShape::Fuzzy { field, text: text@, distance, transposition }),
{
    let term = tantivy::Term::from_field_text(tantivy::schema::Field::from_field_id(field), text);
    EngineQuery { inner: Box::new(tantivy::query::FuzzyTermQuery::new(term, distance, transposition)) }
}

/// `PhraseQuery::new` on the terms that `texts` are in `field`, in their
/// order. The engine refuses a phrase of fewer than two terms.
#[verifier::external_body]
pub(crate) fn phrase_query(field: u32, texts: &Vec<String>) -> (query: EngineQuery)
    requires
        texts.len() >= 2,
    ensures
        query_shape(query) == (QueryShape::Phrase { field, texts: crate::text::texts(texts@) }),
{
    let field = tantivy::schema::Field::from_field_id(field);
    let terms = texts.iter().map(|text| tantivy::Term::from_field_text(field, text)).collect();
    EngineQuery { inner: Box::new(tantivy::query::PhraseQuery::new(terms)) }
}

/// `BooleanQuery::from` on the clauses of `required`, each with the
/// occurrence `Must`, followed by those of `optional`, each with `Should`.
#[verifier::external_body]
pub(crate) fn boolean_query(required: Vec<EngineQuery>, optional: Vec<EngineQuery>) -> (query:
    EngineQuery)
    ensures
        query_shape(query) == (QueryShape::Boolean {
            required: query_shapes(required@),
            optional: query_shapes(optional@),
        }),
{
    let must = required.into_iter().map(|clause| (tantivy::query::Occur::Must, clause.inner));
    let should = optional.into_iter().map(|clause| (tantivy::query::Occur::Should, clause.inner));
    EngineQuery {
        inner: Box::new(tantivy::query::BooleanQuery::from(must.chain(should).collect::<Vec<_>>())),
    }
}

/// `QueryParser::for_index` on the searcher's own index, with
/// `default_fields` as the fields that a bare word is looked up in. The
/// parser reads the schema's entry of each default field by its number,
/// and takes bare words as alternatives until it is told otherwise.
#[verifier::external_body]
pub(crate) fn query_parser(
    searcher: &tantivy::LeasedItem<tantivy::Searcher>,
    default_fields: &Vec<u32>,
) -> (parser: tantivy::query::QueryParser)
    requires
        forall|i: int|
            0 <= i < default_fields.len() ==> #[trigger] default_fields[i] < searcher_fields(
                *searcher,
            ).len(),
    ensures
        parser_schema(parser) == searcher_fields(*searcher),
        !parser_requires_all(parser),
{
    let fields = default_fields.iter().map(|field| tantivy::schema::Field::from_field_id(*field));
    tantivy::query::QueryParser::for_index(searcher.index(), fields.collect())
}

/// `QueryParser::set_conjunction_by_default`: bare words are from then on
/// all required. The schema of the parser stays.
#[verifier::external_body]
pub(crate) fn require_all_words(parser: &mut tantivy::query::QueryParser)
    ensures
        parser_schema(*final(parser)) == parser_schema(*old(parser)),
        parser_requires_all(*final(parser)),
{
    parser.set_conjunction_by_default()
}

/// `QueryParser::parse_query`. The parser refuses a text outside its
/// grammar, and one that names a field that its schema does not have; what
/// it accepts reads fields of its schema only. On a field that is no text
/// field the parser can stop the program, and it lets a range over a field
/// that is not indexed pass, so its schema has to hold indexed text fields
/// only.
#[verifier::external_body]
pub(crate) fn parse_query(parser: &tantivy::query::QueryParser, text: &str) -> (query: Result<
    EngineQuery,
    tantivy::query::QueryParserError,
>)
    requires
        text_only(parser_schema(*parser)),
    ensures
        query matches Ok(parsed) ==> forall|field: u32| #[trigger]
            query_fields(parsed).contains(field) ==> field < parser_schema(*parser).len(),
{
    parser.parse_query(text).map(|inner| EngineQuery { inner })
}

/// `Searcher::search` with `TopDocs::with_limit(limit)`: at most `limit`
/// documents of the searcher, best score first. A boolean query matches
/// the documents that match all of its `Must` clauses and at least one of
/// its clauses, so none where no clause can match. The collector refuses a
/// limit of zero and sets room for `limit` entries aside before it starts;
/// evaluation looks each field of the query up in the schema and among the
/// indexed fields.
#[verifier::external_body]
pub(crate) fn top_docs(
    searcher: &tantivy::LeasedItem<tantivy::Searcher>,
    query: &EngineQuery,
    limit: usize,
) -> (hits: Result<Vec<Hit>, tantivy::TantivyError>)
    requires
        0 < limit <= 0xFFFF,
        query_fields(*query).subset_of(indexed_fields(*searcher)),
    ensures
        hits matches Ok(found) ==> {
            &&& found.len() <= limit
            &&& never_matches(query_shape(*query)) ==> found.len() == 0
            &&& forall|i: int|
                0 <= i < found.len() ==> stored_docs(*searcher).contains_key(
                    (#[trigger] found[i].segment, found[i].doc),
                )
        },
{
    let collector = tantivy::collector::TopDocs::with_limit(limit);
    let ranked = searcher.search(&query.inner, &collector)?;
    Ok(
        ranked.into_iter().map(
            |(score, address)| Hit { score: score.to_string(), segment: address.0, doc: address.1 },
        ).collect(),
    )
}

/// `Searcher::doc`: the stored values of the document at an address that
/// the searcher holds. Reading the store can fail.
#[verifier::external_body]
pub(crate) fn fetch(searcher: &tantivy::LeasedItem<tantivy::Searcher>, segment: u32, doc: u32) -> (stored:
    Result<Vec<(u32, Option<String>)>, tantivy::TantivyError>)
    requires
        stored_docs(*searcher).contains_key((segment, doc)),
    ensures
        stored matches Ok(values) ==> doc_view(values@) == stored_docs(*searcher)[(segment, doc)],
{
    let document = searcher.doc(tantivy::DocAddress(segment, doc))?;
    Ok(
        document.field_values().iter().map(
            |entry| (entry.field().field_id(), entry.value().text().map(String::from)),
        ).collect(),
    )
}

} // verus!
