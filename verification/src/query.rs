//! The queries that are put to the phrase index, as plain data, what it
//! means for a record to match one, and the composer that builds them.

use vstd::prelude::*;
use crate::text::texts;

verus! {

/// How a clause of a boolean query counts.
#[derive(Clone, Copy, PartialEq, Eq, Structural, Debug)]
pub enum Occur {
    /// A record has to match the clause.
    Must,
    /// A match of the clause is one way for the record to match.
    Should,
}

/// A query against the searchable name of the records.
#[derive(Debug, PartialEq, Eq)]
pub enum Query {
    /// The name has `value` among its indexed tokens.
    Term { value: String },
    /// The name has the `terms` as neighbours, in this order.
    Phrase { terms: Vec<String> },
    /// A combination of other queries.
    Boolean { clauses: Vec<(Occur, Query)> },
}

/// A query as a mathematical value.
pub enum QueryView {
    Term { value: Seq<char> },
    Phrase { terms: Seq<Seq<char>> },
    Boolean { clauses: Seq<(Occur, QueryView)> },
}

impl View for Query {
    type V = QueryView;

    open spec fn view(&self) -> QueryView
        decreases self,
    {
        match self {
            Query::Term { value } => QueryView::Term { value: value@ },
            Query::Phrase { terms } => QueryView::Phrase { terms: texts(terms@) },
            Query::Boolean { clauses } => QueryView::Boolean {
                clauses: Seq::new(
                    clauses@.len(),
                    |i: int|
                        if 0 <= i < clauses@.len() {
                            (clauses@[i].0, clauses@[i].1.view())
                        } else {
                            (Occur::Must, QueryView::Term { value: Seq::empty() })
                        },
                ),
            },
        }
    }
}

/// The view of a boolean query has the views of its clauses, in their order.
pub proof fn lemma_boolean_view(query: Query)
    requires
        query is Boolean,
    ensures
        query@ is Boolean,
        query@->clauses.len() == query->clauses@.len(),
        forall|i: int|
            0 <= i < query->clauses@.len() ==> (#[trigger] query@->clauses[i]) == (
                query->clauses@[i].0,
                query->clauses@[i].1@,
            ),
{
    reveal_with_fuel(<Query as View>::view, 2);
}

/// Whether `terms` stand in `tokens` as neighbours, in order, from position `at`.
pub open spec fn occurs_at(tokens: Seq<Seq<char>>, terms: Seq<Seq<char>>, at: int) -> bool {
    0 <= at && at + terms.len() <= tokens.len() && tokens.subrange(at, at + terms.len()) == terms
}

/// Whether a record whose searchable name was indexed as `tokens` matches `query`.
///
/// A term matches when it is one of the tokens. A phrase matches when its
/// terms, of which there is at least one, occur somewhere as neighbours in
/// order. A boolean query matches when every `Must` clause matches and at
/// least one clause matches at all, so one without clauses matches nothing.
pub open spec fn query_matches(query: QueryView, tokens: Seq<Seq<char>>) -> bool
    decreases query,
{
    match query {
        QueryView::Term { value } => tokens.contains(value),
        QueryView::Phrase { terms } => terms.len() > 0 && exists|at: int| #[trigger]
            occurs_at(tokens, terms, at),
        QueryView::Boolean { clauses } => {
            &&& forall|i: int|
                0 <= i < clauses.len() && clauses[i].0 == Occur::Must ==> query_matches(
                    (#[trigger] clauses[i]).1,
                    tokens,
                )
            &&& exists|i: int| 0 <= i < clauses.len() && query_matches((#[trigger] clauses[i]).1, tokens)
        },
    }
}

/// The query that any one of `suggestions`, as an exact term, satisfies.
pub open spec fn any_term(suggestions: Seq<Seq<char>>) -> QueryView {
    QueryView::Boolean {
        clauses: Seq::new(
            suggestions.len(),
            |i: int| (Occur::Should, QueryView::Term { value: suggestions[i] }),
        ),
    }
}

/// The compound query: the tokens as a phrase, and one of the suggestions as a term.
pub open spec fn compound(tokens: Seq<Seq<char>>, suggestions: Seq<Seq<char>>) -> QueryView {
    QueryView::Boolean {
        clauses: seq![
            (Occur::Must, QueryView::Phrase { terms: tokens }),
            (Occur::Must, any_term(suggestions)),
        ],
    }
}

/// The query for a token sequence: the exact term for a single token, the
/// compound query for more.
pub open spec fn composed(tokens: Seq<Seq<char>>, suggestions: Seq<Seq<char>>) -> QueryView {
    if tokens.len() == 1 {
        QueryView::Term { value: tokens[0] }
    } else {
        compound(tokens, suggestions)
    }
}

/// A record matches the compound query exactly when the tokens occur in it
/// as a phrase and one of the suggestions is among its tokens.
pub proof fn lemma_compound_matches(
    tokens: Seq<Seq<char>>,
    suggestions: Seq<Seq<char>>,
    record: Seq<Seq<char>>,
)
    ensures
        query_matches(compound(tokens, suggestions), record) <==> {
            &&& query_matches(QueryView::Phrase { terms: tokens }, record)
            &&& exists|i: int| 0 <= i < suggestions.len() && record.contains(#[trigger] suggestions[i])
        },
{
    let phrase = QueryView::Phrase { terms: tokens };
    let alternatives = any_term(suggestions);
    let outer = compound(tokens, suggestions);
    let clauses = outer->clauses;
    let inner = alternatives->clauses;
    assert(clauses[0] == (Occur::Must, phrase));
    assert(clauses[1] == (Occur::Must, alternatives));
    assert(forall|i: int|
        0 <= i < inner.len() ==> (#[trigger] inner[i]) == (
            Occur::Should,
            QueryView::Term { value: suggestions[i] },
        ));
    if query_matches(outer, record) {
        assert(query_matches(clauses[0].1, record));
        assert(query_matches(clauses[1].1, record));
        let i = choose|i: int| 0 <= i < inner.len() && query_matches((#[trigger] inner[i]).1, record);
        assert(record.contains(suggestions[i]));
    }
    if query_matches(phrase, record) && exists|i: int|
        0 <= i < suggestions.len() && record.contains(#[trigger] suggestions[i]) {
        let i = choose|i: int| 0 <= i < suggestions.len() && record.contains(#[trigger] suggestions[i]);
        assert(query_matches(inner[i].1, record));
        assert(query_matches(alternatives, record));
        assert(query_matches(clauses[0].1, record));
        assert(query_matches(outer, record));
    }
}

/// With no suggestion to choose from, the compound query matches no record
/// at all, whatever the tokens are.
pub proof fn lemma_compound_without_suggestions(tokens: Seq<Seq<char>>, record: Seq<Seq<char>>)
    ensures
        !query_matches(compound(tokens, Seq::empty()), record),
{
    lemma_compound_matches(tokens, Seq::empty(), record);
}

/// The query composed for several tokens and an empty suggestion set
/// matches no record.
pub proof fn lemma_composed_without_suggestions(tokens: Seq<Seq<char>>, record: Seq<Seq<char>>)
    requires
        tokens.len() > 1,
    ensures
        !query_matches(composed(tokens, Seq::empty()), record),
{
    lemma_compound_without_suggestions(tokens, record);
}

/// The query composed for a single token matches exactly the records that
/// have the token among their indexed tokens, whatever the suggestions are.
pub proof fn lemma_composed_single_token(
    token: Seq<char>,
    suggestions: Seq<Seq<char>>,
    record: Seq<Seq<char>>,
)
    ensures
        query_matches(composed(seq![token], suggestions), record) <==> record.contains(token),
{
}

/// Builds the query that any one of `suggestions` satisfies as an exact term.
pub fn compose_any_term(suggestions: &Vec<String>) -> (query: Query)
    ensures
        query@ == any_term(texts(suggestions@)),
{
    let mut clauses: Vec<(Occur, Query)> = Vec::new();
    let mut i: usize = 0;
    while i < suggestions.len()
        invariant
            i <= suggestions.len(),
            clauses.len() == i,
            forall|k: int|
                0 <= k < i ==> (#[trigger] clauses[k]).0 == Occur::Should && clauses[k].1@
                    == (QueryView::Term { value: suggestions[k]@ }),
        decreases suggestions.len() - i,
    {
        clauses.push((Occur::Should, Query::Term { value: suggestions[i].clone() }));
        i += 1;
    }
    let query = Query::Boolean { clauses };
    assert(query@->clauses =~= any_term(texts(suggestions@))->clauses);
    query
}

/// Builds the compound query: `tokens` as an ordered phrase, taken as they
/// are, together with one of `suggestions` as an exact term.
pub fn compose_compound(tokens: &Vec<String>, suggestions: &Vec<String>) -> (query: Query)
    requires
        tokens.len() >= 1,
    ensures
        query@ == compound(texts(tokens@), texts(suggestions@)),
{
    let mut terms: Vec<String> = Vec::new();
    let mut i: usize = 0;
    while i < tokens.len()
        invariant
            i <= tokens.len(),
            terms.len() == i,
            forall|k: int| 0 <= k < i ==> (#[trigger] terms[k])@ == tokens[k]@,
        decreases tokens.len() - i,
    {
        terms.push(tokens[i].clone());
        i += 1;
    }
    assert(texts(terms@) =~= texts(tokens@));
    let phrase = Query::Phrase { terms };
    let alternatives = compose_any_term(suggestions);
    let ghost wanted = compound(texts(tokens@), texts(suggestions@))->clauses;
    assert(wanted[0] == (Occur::Must, phrase@));
    assert(wanted[1] == (Occur::Must, alternatives@));
    let mut clauses: Vec<(Occur, Query)> = Vec::new();
    clauses.push((Occur::Must, phrase));
    clauses.push((Occur::Must, alternatives));
    let query = Query::Boolean { clauses };
    assert(query@->clauses =~= wanted);
    query
}

/// Builds the query for a token sequence: for a single token the exact
/// term, whatever `suggestions` holds; for more the compound query.
pub fn compose(tokens: &Vec<String>, suggestions: &Vec<String>) -> (query: Query)
    requires
        tokens.len() >= 1,
    ensures
        query@ == composed(texts(tokens@), texts(suggestions@)),
{
    if tokens.len() == 1 {
        Query::Term { value: tokens[0].clone() }
    } else {
        compose_compound(tokens, suggestions)
    }
}

} // verus!
