//! The two indices as the search sees them: a request opens a session on
//! each, and everything it reads comes from the searcher that the session
//! took from the reader at that moment.

use vstd::prelude::*;
use crate::engine::{
    acquire_searcher, fetch, fuzzy_term_query, indexed_fields, is_indexed, never_matches,
    open_reader, parse_query, parser_requires_all, parser_schema, query_fields, query_parser,
    query_shape, require_all_words, searcher_fields, searcher_schema, stored_docs, top_docs,
    EngineQuery, Hit, QueryShape,
};
use crate::error::SearchError;
use crate::query::{Query, QueryView};
use crate::record::{
    distinct_fields, first_text, first_text_of, record_from, result_of, RecordFields, SearchResult,
    SearchResultView, StoredDoc,
};
use crate::translate::{build, lemma_shape_reads_its_field, shape_of};
use crate::schema::{
    field_is_indexed, holds_text_only, lacks, lemma_record_fields_differ, names,
    numbers_record_fields, record_fields, text_only, word_field, FieldView, DISPLAY_NAME_FIELD,
    IDENTIFIER_FIELD, LANGUAGE_FIELD, SEARCHABLE_NAME_FIELD, WORD_FIELD,
};

verus! {

/// How many records a query against the phrase index returns at most.
pub const RESULT_LIMIT: usize = 50;

/// How many candidates a lookup in the word index returns at most.
pub const SUGGESTION_LIMIT: usize = 10;

/// How many edits the edit-distance lookup allows.
pub const MAX_EDIT_DISTANCE: u8 = 1;

/// Whether the edit-distance lookup counts a swap of two neighbours as one edit.
pub const TRANSPOSITION_IS_ONE_EDIT: bool = true;

/// How the free-text parser combines the bare words of a token.
#[derive(Clone, Copy, PartialEq, Eq, Structural, Debug)]
pub enum Conjunction {
    /// A candidate has to match one of the words.
    AnyWord,
    /// A candidate has to match every word.
    AllWords,
}

/// The word index: one entry per token occurrence in the catalog.
///
/// A request reads the index through `reader` alone, and takes the schema
/// and the index from the searcher that the reader lends it, so that the
/// three agree whatever stands in `schema` and `index`.
pub struct Words {
    /// The reader that lends out the searchers.
    pub reader: tantivy::IndexReader,
    /// The schema that the index was made with.
    pub schema: tantivy::schema::Schema,
    /// The index itself.
    pub index: tantivy::Index,
    /// How the free-text parser combines the bare words of a token.
    pub conjunction: Conjunction,
}

/// The phrase index: one entry per catalog record.
///
/// A request reads the index through `reader` alone, as with the word index.
pub struct Phrases {
    /// The reader that lends out the searchers.
    pub reader: tantivy::IndexReader,
    /// The schema that the index was made with.
    pub schema: tantivy::schema::Schema,
    /// The index itself.
    pub index: tantivy::Index,
}

/// Whether `reader` is what opening a reader on `index`, set to reload on
/// every commit, comes to: the reader that the engine opened, or the fault
/// of the engine where it opened none.
pub closed spec fn opened_on(index: &tantivy::Index, reader: Result<tantivy::IndexReader, SearchError>) -> bool {
    exists|opened: Result<tantivy::IndexReader, tantivy::TantivyError>| #[trigger]
        call_ensures(open_reader, (index, tantivy::ReloadPolicy::OnCommit), opened) && match opened {
            Ok(made) => reader == Ok::<tantivy::IndexReader, SearchError>(made),
            Err(_) => reader == Err::<tantivy::IndexReader, SearchError>(SearchError::EngineFault),
        }
}

/// Opens a reader on the word index that reloads whenever the index commits.
pub fn init_words_reader(index: &tantivy::Index) -> (reader: Result<tantivy::IndexReader, SearchError>)
    ensures
        opened_on(index, reader),
        reader matches Err(error) ==> error == SearchError::EngineFault,
{
    let opened = open_reader(index, tantivy::ReloadPolicy::OnCommit);
    match opened {
        Ok(made) => Ok(made),
        Err(_) => Err(SearchError::EngineFault),
    }
}

/// Opens a reader on the phrase index that reloads whenever the index commits.
pub fn init_phrases_reader(index: &tantivy::Index) -> (reader: Result<
    tantivy::IndexReader,
    SearchError,
>)
    ensures
        opened_on(index, reader),
        reader matches Err(error) ==> error == SearchError::EngineFault,
{
    let opened = open_reader(index, tantivy::ReloadPolicy::OnCommit);
    match opened {
        Ok(made) => Ok(made),
        Err(_) => Err(SearchError::EngineFault),
    }
}

/// A request's hold on the phrase index: the searcher it took, and the
/// numbers of the four fields in that searcher's schema.
pub struct PhraseSession {
    searcher: tantivy::LeasedItem<tantivy::Searcher>,
    fields: RecordFields,
}

impl PhraseSession {
    #[verifier::type_invariant]
    spec fn searchable(&self) -> bool {
        &&& numbers_record_fields(searcher_fields(self.searcher), self.fields)
        &&& is_indexed(self.searcher, self.fields.searchable_name)
    }

    /// The documents that the session can read, by address.
    pub closed spec fn stored(&self) -> Map<(u32, u32), StoredDoc> {
        stored_docs(self.searcher)
    }

    /// The fields of the schema that the session reads by.
    pub closed spec fn layout(&self) -> Seq<FieldView> {
        searcher_fields(self.searcher)
    }

    /// The numbers of the four fields.
    pub closed spec fn fields(&self) -> RecordFields {
        self.fields
    }

    /// The match that the document at `address` makes with `score`.
    pub open spec fn result_at(&self, address: (u32, u32), score: Seq<char>) -> Option<
        SearchResultView,
    > {
        if self.stored().contains_key(address) {
            result_of(score, self.stored()[address], self.fields())
        } else {
            None
        }
    }

    /// Whether `result` is a record that the session stores, with its texts
    /// as they were stored.
    pub open spec fn holds(&self, result: SearchResultView) -> bool {
        exists|address: (u32, u32)| #[trigger] self.result_at(address, result.score) == Some(result)
    }

    /// The numbers of the four fields: those that the schema of the session
    /// has under the four names, all different.
    pub fn field_numbers(&self) -> (fields: RecordFields)
        ensures
            fields == self.fields(),
            numbers_record_fields(self.layout(), fields),
            distinct_fields(fields),
    {
        proof {
            use_type_invariant(self);
            lemma_record_fields_differ(self.layout(), self.fields());
        }
        self.fields
    }

    /// The searcher that the session reads by.
    pub closed spec fn searcher(&self) -> tantivy::LeasedItem<tantivy::Searcher> {
        self.searcher
    }

    /// Whether the searcher of the session is one that `reader` lent out.
    pub closed spec fn lent_by(&self, reader: &tantivy::IndexReader) -> bool {
        call_ensures(acquire_searcher, (reader,), self.searcher)
    }

    /// Whether `session` is what making a session of `searcher` comes to:
    /// a session that reads by this searcher; or the refusal, which comes
    /// whenever the schema of the searcher lacks one of the four fields,
    /// and otherwise only where it has a field of the name of the
    /// searchable name that is not indexed.
    pub open spec fn made_over(
        searcher: tantivy::LeasedItem<tantivy::Searcher>,
        session: Result<PhraseSession, SearchError>,
    ) -> bool {
        let layout = searcher_fields(searcher);
        let incomplete = {
            ||| lacks(layout, IDENTIFIER_FIELD@)
            ||| lacks(layout, SEARCHABLE_NAME_FIELD@)
            ||| lacks(layout, DISPLAY_NAME_FIELD@)
            ||| lacks(layout, LANGUAGE_FIELD@)
        };
        match session {
            Ok(made) => {
                &&& made.searcher() == searcher
                &&& made.stored() == stored_docs(searcher)
                &&& made.layout() == layout
                &&& !incomplete
            },
            Err(error) => {
                &&& error == SearchError::MissingField
                &&& incomplete || exists|number: int|
                    0 <= number < layout.len() && (#[trigger] layout[number]).name
                        == SEARCHABLE_NAME_FIELD@ && !layout[number].indexed()
            },
        }
    }

    /// Whether `session` is what opening a session on the phrase index
    /// comes to: what making a session of a searcher that `reader` lent out
    /// comes to.
    pub closed spec fn opened(
        reader: &tantivy::IndexReader,
        session: Result<PhraseSession, SearchError>,
    ) -> bool {
        exists|searcher: tantivy::LeasedItem<tantivy::Searcher>| #[trigger]
            call_ensures(acquire_searcher, (reader,), searcher) && PhraseSession::made_over(
                searcher,
                session,
            )
    }

    /// A session that was opened on a reader reads by a searcher that the
    /// reader lent out, and it is refused for a missing field only.
    pub proof fn lemma_opened(reader: &tantivy::IndexReader, session: Result<PhraseSession, SearchError>)
        requires
            PhraseSession::opened(reader, session),
        ensures
            session matches Ok(made) ==> made.lent_by(reader),
            session matches Err(error) ==> error == SearchError::MissingField,
    {
    }

    /// Makes a session of a searcher of the phrase index: looks the four
    /// fields up in its schema. The session is refused where the schema
    /// lacks one of them or does not index the searchable name. No query is
    /// evaluated.
    pub fn over(searcher: tantivy::LeasedItem<tantivy::Searcher>) -> (session: Result<
        PhraseSession,
        SearchError,
    >)
        ensures
            PhraseSession::made_over(searcher, session),
    {
        let schema = searcher_schema(&searcher);
        let fields = record_fields(schema)?;
        if !field_is_indexed(schema, fields.searchable_name) {
            assert(searcher_fields(searcher)[fields.searchable_name as int].name
                == SEARCHABLE_NAME_FIELD@);
            return Err(SearchError::MissingField);
        }
        Ok(PhraseSession { searcher, fields })
    }

    /// Takes a searcher from the reader of the phrase index and makes a
    /// session of it, as `over` says.
    pub fn open(phrases: &Phrases) -> (session: Result<PhraseSession, SearchError>)
        ensures
            PhraseSession::opened(&phrases.reader, session),
            session matches Ok(made) ==> made.lent_by(&phrases.reader),
            session matches Err(error) ==> error == SearchError::MissingField,
    {
        let searcher = acquire_searcher(&phrases.reader);
        PhraseSession::over(searcher)
    }

    /// Whether making the document of `hit` into a match fails with
    /// `error`: the document lacks one of the four texts, or the engine
    /// failed to read it.
    pub closed spec fn fails_on(&self, hit: Hit, error: SearchError) -> bool {
        ||| error == SearchError::MalformedRecord && self.result_at(
            (hit.segment, hit.doc),
            hit.score@,
        ) is None
        ||| error == SearchError::EngineFault && exists|
            fetched: Result<Vec<(u32, Option<String>)>, tantivy::TantivyError>,
        | #[trigger]
            call_ensures(fetch, (&self.searcher, hit.segment, hit.doc), fetched) && fetched is Err
    }

    /// Whether `outcome` is what reading the matches of `hits` comes to:
    /// the match that the stored document of every hit makes with its
    /// score, in the order of the hits; or the error of the first hit whose
    /// document fails to be made into a match.
    pub closed spec fn collects(
        &self,
        hits: Seq<Hit>,
        outcome: Result<Vec<SearchResult>, SearchError>,
    ) -> bool {
        match outcome {
            Ok(made) => {
                &&& made.len() == hits.len()
                &&& forall|i: int|
                    0 <= i < made.len() ==> self.result_at(
                        (hits[i].segment, hits[i].doc),
                        hits[i].score@,
                    ) == Some(#[trigger] made[i]@)
            },
            Err(error) => exists|at: int|
                0 <= at < hits.len() && #[trigger] self.fails_on(hits[at], error) && forall|k: int|
                    0 <= k < at ==> self.result_at(
                        (#[trigger] hits[k].segment, hits[k].doc),
                        hits[k].score@,
                    ) is Some,
        }
    }

    /// Whether `outcome` is what evaluating `query` comes to: the matches
    /// of the hits that the engine ranks, on the searcher of the session
    /// and with the limit `RESULT_LIMIT`, for the query that `build` makes
    /// of `query` in the field of the searchable name, read as `collects`
    /// says; or the fault of the engine where it ranks none.
    pub closed spec fn evaluates(
        &self,
        query: QueryView,
        outcome: Result<Vec<SearchResult>, SearchError>,
    ) -> bool {
        exists|built: EngineQuery, ranked: Result<Vec<Hit>, tantivy::TantivyError>|
            query_shape(built) == shape_of(query, self.fields.searchable_name) && #[trigger] call_ensures(
                top_docs,
                (&self.searcher, &built, RESULT_LIMIT),
                ranked,
            ) && match ranked {
                Ok(hits) => self.collects(hits@, outcome),
                Err(_) => outcome == Err::<Vec<SearchResult>, SearchError>(
                    SearchError::EngineFault,
                ),
            }
    }

    /// Reads the document of every hit and makes it into a match, in the
    /// order of the hits.
    fn collect(&self, hits: Vec<Hit>) -> (results: Result<Vec<SearchResult>, SearchError>)
        requires
            forall|i: int|
                0 <= i < hits.len() ==> self.stored().contains_key(
                    (#[trigger] hits[i].segment, hits[i].doc),
                ),
        ensures
            self.collects(hits@, results),
            results matches Ok(made) ==> {
                &&& made.len() == hits.len()
                &&& forall|i: int|
                    0 <= i < made.len() ==> self.result_at(
                        (hits[i].segment, hits[i].doc),
                        hits[i].score@,
                    ) == Some(#[trigger] made[i]@)
            },
            results matches Err(error) ==> error == SearchError::EngineFault || error
                == SearchError::MalformedRecord,
    {
        let mut made: Vec<SearchResult> = Vec::new();
        let mut i: usize = 0;
        while i < hits.len()
            invariant
                i <= hits.len(),
                made.len() == i,
                forall|k: int|
                    0 <= k < hits.len() ==> self.stored().contains_key(
                        (#[trigger] hits[k].segment, hits[k].doc),
                    ),
                forall|k: int|
                    0 <= k < i ==> self.result_at((hits[k].segment, hits[k].doc), hits[k].score@)
                        == Some(#[trigger] made[k]@),
                forall|k: int|
                    0 <= k < i ==> self.result_at(
                        (#[trigger] hits[k].segment, hits[k].doc),
                        hits[k].score@,
                    ) is Some,
            decreases hits.len() - i,
        {
            let hit = &hits[i];
            let fetched = fetch(&self.searcher, hit.segment, hit.doc);
            let doc = match fetched {
                Ok(doc) => doc,
                Err(_) => {
                    assert(self.fails_on(hits@[i as int], SearchError::EngineFault));
                    return Err(SearchError::EngineFault);
                },
            };
            match record_from(hit.score.clone(), &doc, self.fields) {
                Some(result) => made.push(result),
                None => {
                    assert(self.fails_on(hits@[i as int], SearchError::MalformedRecord));
                    return Err(SearchError::MalformedRecord);
                },
            }
            i += 1;
        }
        Ok(made)
    }

    /// Whether `outcome` is as every outcome of evaluating `query` is: at
    /// most `RESULT_LIMIT` records of this session with their texts as
    /// stored, and none where the query is built to a shape that never
    /// matches; or one of the errors of an evaluation.
    pub open spec fn answers(
        &self,
        query: QueryView,
        outcome: Result<Vec<SearchResult>, SearchError>,
    ) -> bool {
        match outcome {
            Ok(found) => {
                &&& found.len() <= RESULT_LIMIT
                &&& never_matches(shape_of(query, self.fields().searchable_name)) ==> found.len()
                    == 0
                &&& forall|i: int| 0 <= i < found.len() ==> self.holds(#[trigger] found[i]@)
            },
            Err(error) => error == SearchError::EngineFault || error
                == SearchError::MalformedRecord,
        }
    }

    /// What evaluating a query comes to is as every outcome of an
    /// evaluation is: at most `RESULT_LIMIT` records of the session, none
    /// where the query is built to a shape that never matches, or an error
    /// of an evaluation.
    pub proof fn lemma_evaluates_answers(
        &self,
        query: QueryView,
        outcome: Result<Vec<SearchResult>, SearchError>,
    )
        requires
            self.evaluates(query, outcome),
        ensures
            self.answers(query, outcome),
    {
    }

    /// Evaluates `query` against the searchable names and returns the best
    /// matches, at most `RESULT_LIMIT` of them, best first: what the engine
    /// ranks for the query that `build` makes of `query`, each hit as the
    /// match that its stored document makes. Every match is a record of
    /// this session with its texts as stored, and there is none where the
    /// query is built to a shape that never matches.
    pub fn evaluate(&self, query: &Query) -> (results: Result<Vec<SearchResult>, SearchError>)
        ensures
            self.evaluates(query@, results),
            self.answers(query@, results),
    {
        proof {
            use_type_invariant(self);
        }
        let built = build(query, self.fields.searchable_name);
        assert forall|field: u32| query_fields(built).contains(field) implies indexed_fields(
            self.searcher,
        ).contains(field) by {
            lemma_shape_reads_its_field(query@, self.fields.searchable_name, field);
        }
        let ranked = top_docs(&self.searcher, &built, RESULT_LIMIT);
        let hits = match ranked {
            Ok(hits) => hits,
            Err(_) => { return Err(SearchError::EngineFault); },
        };
        self.collect(hits)
    }
}

/// A request's hold on the word index: the searcher it took, the number of
/// the word field in that searcher's schema, and a parser for that field.
pub struct WordSession {
    searcher: tantivy::LeasedItem<tantivy::Searcher>,
    word: u32,
    parser: tantivy::query::QueryParser,
}

impl WordSession {
    #[verifier::type_invariant]
    spec fn searchable(&self) -> bool {
        &&& names(searcher_fields(self.searcher), self.word, WORD_FIELD@)
        &&& is_indexed(self.searcher, self.word)
        &&& text_only(searcher_fields(self.searcher))
        &&& parser_schema(self.parser) == searcher_fields(self.searcher)
    }

    /// The searcher that the session reads by.
    pub closed spec fn searcher(&self) -> tantivy::LeasedItem<tantivy::Searcher> {
        self.searcher
    }

    /// Whether the searcher of the session is one that `reader` lent out.
    pub closed spec fn lent_by(&self, reader: &tantivy::IndexReader) -> bool {
        call_ensures(acquire_searcher, (reader,), self.searcher)
    }

    /// Whether `session` is what making a session of `searcher` comes to:
    /// a session that reads by this searcher, with a parser of this
    /// conjunction, where the schema of the searcher has the word field and
    /// holds indexed text fields only; the refusal where it does not.
    pub open spec fn made_over(
        searcher: tantivy::LeasedItem<tantivy::Searcher>,
        conjunction: Conjunction,
        session: Result<WordSession, SearchError>,
    ) -> bool {
        match session {
            Ok(made) => {
                &&& made.searcher() == searcher
                &&& made.stored() == stored_docs(searcher)
                &&& made.layout() == searcher_fields(searcher)
                &&& made.conjunction() == conjunction
                &&& !lacks(searcher_fields(searcher), WORD_FIELD@)
                &&& text_only(searcher_fields(searcher))
            },
            Err(error) => {
                &&& error == SearchError::MissingField
                &&& lacks(searcher_fields(searcher), WORD_FIELD@) || !text_only(
                    searcher_fields(searcher),
                )
            },
        }
    }

    /// Whether `session` is what opening a session on the word index comes
    /// to: what making a session of a searcher that `reader` lent out
    /// comes to.
    pub closed spec fn opened(
        reader: &tantivy::IndexReader,
        conjunction: Conjunction,
        session: Result<WordSession, SearchError>,
    ) -> bool {
        exists|searcher: tantivy::LeasedItem<tantivy::Searcher>| #[trigger]
            call_ensures(acquire_searcher, (reader,), searcher) && WordSession::made_over(
                searcher,
                conjunction,
                session,
            )
    }

    /// A session that was opened on a reader reads by a searcher that the
    /// reader lent out, and it is refused for a missing field only.
    pub proof fn lemma_opened(
        reader: &tantivy::IndexReader,
        conjunction: Conjunction,
        session: Result<WordSession, SearchError>,
    )
        requires
            WordSession::opened(reader, conjunction, session),
        ensures
            session matches Ok(made) ==> made.lent_by(reader) && made.conjunction() == conjunction,
            session matches Err(error) ==> error == SearchError::MissingField,
    {
    }

    /// How the parser of the session combines the bare words of a token.
    pub closed spec fn conjunction(&self) -> Conjunction {
        if parser_requires_all(self.parser) {
            Conjunction::AllWords
        } else {
            Conjunction::AnyWord
        }
    }

    /// The documents that the session can read, by address.
    pub closed spec fn stored(&self) -> Map<(u32, u32), StoredDoc> {
        stored_docs(self.searcher)
    }

    /// The fields of the schema that the session reads by.
    pub closed spec fn layout(&self) -> Seq<FieldView> {
        searcher_fields(self.searcher)
    }

    /// The number of the word field.
    pub closed spec fn word(&self) -> u32 {
        self.word
    }

    /// The word that the document at `address` stores.
    pub open spec fn word_at(&self, address: (u32, u32)) -> Option<Seq<char>> {
        if self.stored().contains_key(address) {
            first_text_of(self.stored()[address], self.word())
        } else {
            None
        }
    }

    /// Whether `word` is an entry of the word index.
    pub open spec fn knows(&self, word: Seq<char>) -> bool {
        exists|address: (u32, u32)| #[trigger] self.word_at(address) == Some(word)
    }

    /// Makes a session of a searcher of the word index: looks the word
    /// field up in its schema and sets a parser up for it, which takes the
    /// bare words of a token as `conjunction` says. The session is refused
    /// exactly where the schema lacks the field or holds a field that is
    /// not an indexed text field: the parser of the engine is safe on
    /// indexed text fields only. No query is evaluated.
    pub fn over(searcher: tantivy::LeasedItem<tantivy::Searcher>, conjunction: Conjunction) -> (session:
        Result<WordSession, SearchError>)
        ensures
            WordSession::made_over(searcher, conjunction, session),
    {
        let schema = searcher_schema(&searcher);
        let word = word_field(schema)?;
        if !holds_text_only(schema) {
            return Err(SearchError::MissingField);
        }
        let mut defaults: Vec<u32> = Vec::new();
        defaults.push(word);
        let mut parser = query_parser(&searcher, &defaults);
        match conjunction {
            Conjunction::AllWords => require_all_words(&mut parser),
            Conjunction::AnyWord => {},
        }
        Ok(WordSession { searcher, word, parser })
    }

    /// Takes a searcher from the reader of the word index and makes a
    /// session of it, as `over` says.
    pub fn open(words: &Words) -> (session: Result<WordSession, SearchError>)
        ensures
            WordSession::opened(&words.reader, words.conjunction, session),
            session matches Ok(made) ==> made.lent_by(&words.reader) && made.conjunction()
                == words.conjunction,
            session matches Err(error) ==> error == SearchError::MissingField,
    {
        let searcher = acquire_searcher(&words.reader);
        WordSession::over(searcher, words.conjunction)
    }

    /// Whether reading the word of `hit` fails with `error`: the document
    /// stores no word, or the engine failed to read it.
    pub closed spec fn fails_on(&self, hit: Hit, error: SearchError) -> bool {
        ||| error == SearchError::MalformedRecord && self.word_at((hit.segment, hit.doc)) is None
        ||| error == SearchError::EngineFault && exists|
            fetched: Result<Vec<(u32, Option<String>)>, tantivy::TantivyError>,
        | #[trigger]
            call_ensures(fetch, (&self.searcher, hit.segment, hit.doc), fetched) && fetched is Err
    }

    /// Whether `outcome` is what reading the words of `hits` comes to: the
    /// word that the stored document of every hit holds, in the order of
    /// the hits; or the error of the first hit whose word fails to be read.
    pub closed spec fn reads(&self, hits: Seq<Hit>, outcome: Result<Vec<String>, SearchError>) -> bool {
        match outcome {
            Ok(read) => {
                &&& read.len() == hits.len()
                &&& forall|i: int|
                    0 <= i < read.len() ==> self.word_at((hits[i].segment, hits[i].doc)) == Some(
                        #[trigger] read[i]@,
                    )
            },
            Err(error) => exists|at: int|
                0 <= at < hits.len() && #[trigger] self.fails_on(hits[at], error) && forall|k: int|
                    0 <= k < at ==> self.word_at((#[trigger] hits[k].segment, hits[k].doc)) is Some,
        }
    }

    /// Whether `outcome` is what looking `built` up comes to: the words of
    /// the hits that the engine ranks for it, on the searcher of the
    /// session and with the limit `SUGGESTION_LIMIT`, read as `reads` says;
    /// or the fault of the engine where it ranks none.
    pub closed spec fn looks_up(
        &self,
        built: EngineQuery,
        outcome: Result<Vec<String>, SearchError>,
    ) -> bool {
        exists|ranked: Result<Vec<Hit>, tantivy::TantivyError>| #[trigger]
            call_ensures(top_docs, (&self.searcher, &built, SUGGESTION_LIMIT), ranked) && match ranked {
                Ok(hits) => self.reads(hits@, outcome),
                Err(_) => outcome == Err::<Vec<String>, SearchError>(SearchError::EngineFault),
            }
    }

    /// Whether `outcome` is what the structured lookup of `token` comes
    /// to: what looking up the query comes to that the parser of the
    /// session makes of the token, or the refusal of the parser.
    pub closed spec fn structured_answer(
        &self,
        token: Seq<char>,
        outcome: Result<Vec<String>, SearchError>,
    ) -> bool {
        exists|asked: &str, parsed: Result<EngineQuery, tantivy::query::QueryParserError>|
            asked@ == token && #[trigger] call_ensures(parse_query, (&self.parser, asked), parsed)
                && match parsed {
                Ok(built) => self.looks_up(built, outcome),
                Err(_) => outcome == Err::<Vec<String>, SearchError>(SearchError::MalformedQuery),
            }
    }

    /// Whether `outcome` is what the edit-distance lookup of `term` comes
    /// to: what looking up the query of `edit_distance_query` for the term
    /// comes to.
    pub closed spec fn fuzzy_answer(
        &self,
        term: Seq<char>,
        outcome: Result<Vec<String>, SearchError>,
    ) -> bool {
        exists|built: EngineQuery| #[trigger]
            self.looks_up(built, outcome) && query_shape(built) == (QueryShape::Fuzzy {
                field: self.word,
                text: term,
                distance: MAX_EDIT_DISTANCE,
                transposition: TRANSPOSITION_IS_ONE_EDIT,
            })
    }

    /// What looking a query up comes to is at most `SUGGESTION_LIMIT`
    /// words of the index, or an error of a lookup.
    pub proof fn lemma_looks_up_finds(
        &self,
        built: EngineQuery,
        outcome: Result<Vec<String>, SearchError>,
    )
        requires
            self.looks_up(built, outcome),
        ensures
            self.finds(outcome),
    {
    }

    /// What the structured lookup of a token comes to is at most
    /// `SUGGESTION_LIMIT` words of the index, or an error of a lookup.
    pub proof fn lemma_structured_answer_finds(
        &self,
        token: Seq<char>,
        outcome: Result<Vec<String>, SearchError>,
    )
        requires
            self.structured_answer(token, outcome),
        ensures
            self.finds(outcome),
    {
        let (asked, parsed) = choose|
            asked: &str,
            parsed: Result<EngineQuery, tantivy::query::QueryParserError>,
        |
            asked@ == token && #[trigger] call_ensures(parse_query, (&self.parser, asked), parsed)
                && match parsed {
                Ok(built) => self.looks_up(built, outcome),
                Err(_) => outcome == Err::<Vec<String>, SearchError>(SearchError::MalformedQuery),
            };
        match parsed {
            Ok(built) => {
                self.lemma_looks_up_finds(built, outcome);
            },
            Err(_) => {},
        }
    }

    /// What the edit-distance lookup of a term comes to is at most
    /// `SUGGESTION_LIMIT` words of the index, or an error of a lookup.
    pub proof fn lemma_fuzzy_answer_finds(
        &self,
        term: Seq<char>,
        outcome: Result<Vec<String>, SearchError>,
    )
        requires
            self.fuzzy_answer(term, outcome),
        ensures
            self.finds(outcome),
    {
        let built = choose|built: EngineQuery| #[trigger]
            self.looks_up(built, outcome) && query_shape(built) == (QueryShape::Fuzzy {
                field: self.word,
                text: term,
                distance: MAX_EDIT_DISTANCE,
                transposition: TRANSPOSITION_IS_ONE_EDIT,
            });
        self.lemma_looks_up_finds(built, outcome);
    }

    /// Whether `outcome` is as every outcome of a lookup is: at most
    /// `SUGGESTION_LIMIT` words of the index, or one of the errors of a
    /// lookup.
    pub open spec fn finds(&self, outcome: Result<Vec<String>, SearchError>) -> bool {
        match outcome {
            Ok(found) => {
                &&& found.len() <= SUGGESTION_LIMIT
                &&& forall|i: int| 0 <= i < found.len() ==> self.knows(#[trigger] found[i]@)
            },
            Err(error) => error == SearchError::MalformedQuery || error == SearchError::EngineFault
                || error == SearchError::MalformedRecord,
        }
    }

    /// Reads the word of every hit, in the order of the hits.
    fn collect(&self, hits: Vec<Hit>) -> (words: Result<Vec<String>, SearchError>)
        requires
            forall|i: int|
                0 <= i < hits.len() ==> self.stored().contains_key(
                    (#[trigger] hits[i].segment, hits[i].doc),
                ),
        ensures
            self.reads(hits@, words),
            words matches Ok(read) ==> {
                &&& read.len() == hits.len()
                &&& forall|i: int|
                    0 <= i < read.len() ==> self.word_at((hits[i].segment, hits[i].doc)) == Some(
                        #[trigger] read[i]@,
                    )
            },
            words matches Err(error) ==> error == SearchError::EngineFault || error
                == SearchError::MalformedRecord,
    {
        let mut read: Vec<String> = Vec::new();
        let mut i: usize = 0;
        while i < hits.len()
            invariant
                i <= hits.len(),
                read.len() == i,
                forall|k: int|
                    0 <= k < hits.len() ==> self.stored().contains_key(
                        (#[trigger] hits[k].segment, hits[k].doc),
                    ),
                forall|k: int|
                    0 <= k < i ==> self.word_at((hits[k].segment, hits[k].doc)) == Some(
                        #[trigger] read[k]@,
                    ),
                forall|k: int|
                    0 <= k < i ==> self.word_at((#[trigger] hits[k].segment, hits[k].doc)) is Some,
            decreases hits.len() - i,
        {
            let hit = &hits[i];
            let fetched = fetch(&self.searcher, hit.segment, hit.doc);
            let doc = match fetched {
                Ok(doc) => doc,
                Err(_) => {
                    assert(self.fails_on(hits@[i as int], SearchError::EngineFault));
                    return Err(SearchError::EngineFault);
                },
            };
            match first_text(&doc, self.word) {
                Some(word) => read.push(word),
                None => {
                    assert(self.fails_on(hits@[i as int], SearchError::MalformedRecord));
                    return Err(SearchError::MalformedRecord);
                },
            }
            i += 1;
        }
        Ok(read)
    }

    /// Runs a built query and reads the words of its best matches: what
    /// the engine ranks for the query, each hit as the word that its stored
    /// document holds.
    fn lookup(&self, built: &EngineQuery) -> (words: Result<Vec<String>, SearchError>)
        requires
            query_fields(*built).subset_of(indexed_fields(self.searcher)),
        ensures
            self.looks_up(*built, words),
            words matches Ok(found) ==> {
                &&& found.len() <= SUGGESTION_LIMIT
                &&& forall|i: int| 0 <= i < found.len() ==> self.knows(#[trigger] found[i]@)
            },
            words matches Err(error) ==> error == SearchError::EngineFault || error
                == SearchError::MalformedRecord,
    {
        let ranked = top_docs(&self.searcher, built, SUGGESTION_LIMIT);
        let hits = match ranked {
            Ok(hits) => hits,
            Err(_) => { return Err(SearchError::EngineFault); },
        };
        self.collect(hits)
    }

    /// The structured lookup: parses `token` as free text over the word
    /// field and returns the words of the best matches, at most
    /// `SUGGESTION_LIMIT`, best first: what looking up the parsed query
    /// comes to, or the refusal of the parser.
    pub fn structured_lookup(&self, token: &str) -> (words: Result<Vec<String>, SearchError>)
        ensures
            self.structured_answer(token@, words),
            words matches Ok(found) ==> {
                &&& found.len() <= SUGGESTION_LIMIT
                &&& forall|i: int| 0 <= i < found.len() ==> self.knows(#[trigger] found[i]@)
            },
            words matches Err(error) ==> error == SearchError::MalformedQuery || error
                == SearchError::EngineFault || error == SearchError::MalformedRecord,
    {
        proof {
            use_type_invariant(self);
        }
        let parsed = parse_query(&self.parser, token);
        let built = match parsed {
            Ok(built) => built,
            Err(_) => { return Err(SearchError::MalformedQuery); },
        };
        self.lookup(&built)
    }

    /// The query of the edit-distance lookup: the words within
    /// `MAX_EDIT_DISTANCE` edits of `term`, a swap of two neighbours counted
    /// as `TRANSPOSITION_IS_ONE_EDIT` says.
    pub fn edit_distance_query(&self, term: &str) -> (built: EngineQuery)
        ensures
            query_shape(built) == (QueryShape::Fuzzy {
                field: self.word(),
                text: term@,
                distance: MAX_EDIT_DISTANCE,
                transposition: TRANSPOSITION_IS_ONE_EDIT,
            }),
    {
        fuzzy_term_query(self.word, term, MAX_EDIT_DISTANCE, TRANSPOSITION_IS_ONE_EDIT)
    }

    /// The edit-distance lookup: the words that the query of
    /// `edit_distance_query` finds for `term`, at most `SUGGESTION_LIMIT` of
    /// them, best first.
    pub fn fuzzy_lookup(&self, term: &str) -> (words: Result<Vec<String>, SearchError>)
        ensures
            self.fuzzy_answer(term@, words),
            words matches Ok(found) ==> {
                &&& found.len() <= SUGGESTION_LIMIT
                &&& forall|i: int| 0 <= i < found.len() ==> self.knows(#[trigger] found[i]@)
            },
            words matches Err(error) ==> error == SearchError::EngineFault || error
                == SearchError::MalformedRecord,
    {
        proof {
            use_type_invariant(self);
        }
        let built = self.edit_distance_query(term);
        self.lookup(&built)
    }
}

} // verus!

