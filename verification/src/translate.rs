//! From the queries of this library to those of the engine.

use vstd::prelude::*;
use crate::engine::{
    boolean_query, exact_term_query, never_matches, phrase_query, query_shape, query_shapes,
    shape_reads, EngineQuery, QueryShape,
};
use crate::query::{
    any_term, compound, lemma_boolean_view, query_matches, Occur, Query, QueryView,
};

verus! {

/// The shape of the engine's query for `query`, every term of it in
/// `field`: a term as it is, read with the basic record option; a phrase
/// of two terms and more as it is, one of a single term as that term, one
/// of no term as a boolean query without clauses; a boolean query with its
/// `Must` clauses as the required and its `Should` clauses as the optional
/// queries, each kind in its order.
pub open spec fn shape_of(query: QueryView, field: u32) -> QueryShape
    decreases query, 1nat, 0nat,
{
    match query {
        QueryView::Term { value } => QueryShape::Term {
            field,
            text: value,
            record: tantivy::schema::IndexRecordOption::Basic,
        },
        QueryView::Phrase { terms } => if terms.len() >= 2 {
            QueryShape::Phrase { field, texts: terms }
        } else if terms.len() == 1 {
            QueryShape::Term {
                field,
                text: terms[0],
                record: tantivy::schema::IndexRecordOption::Basic,
            }
        } else {
            QueryShape::Boolean { required: Seq::empty(), optional: Seq::empty() }
        },
        QueryView::Boolean { clauses } => QueryShape::Boolean {
            required: clause_shapes(query, clauses.len(), Occur::Must, field),
            optional: clause_shapes(query, clauses.len(), Occur::Should, field),
        },
    }
}

/// The shapes for those of the first `count` clauses of a boolean query
/// that are of the kind `occur`, in their order.
pub open spec fn clause_shapes(query: QueryView, count: nat, occur: Occur, field: u32) -> Seq<
    QueryShape,
>
    decreases query, 0nat, count,
{
    match query {
        QueryView::Boolean { clauses } => if count == 0 || count > clauses.len() {
            Seq::empty()
        } else {
            let before = clause_shapes(query, (count - 1) as nat, occur, field);
            let clause = clauses[count - 1];
            if clause.0 == occur {
                before.push(shape_of(clause.1, field))
            } else {
                before
            }
        },
        _ => Seq::empty(),
    }
}

/// Turns a query into the engine's own, every term of it in `field`.
#[verifier::loop_isolation(false)]
pub fn build(query: &Query, field: u32) -> (built: EngineQuery)
    ensures
        query_shape(built) == shape_of(query@, field),
    decreases query,
{
    match query {
        Query::Term { value } => exact_term_query(
            field,
            value.as_str(),
            tantivy::schema::IndexRecordOption::Basic,
        ),
        Query::Phrase { terms } => {
            if terms.len() >= 2 {
                phrase_query(field, terms)
            } else if terms.len() == 1 {
                exact_term_query(
                    field,
                    terms[0].as_str(),
                    tantivy::schema::IndexRecordOption::Basic,
                )
            } else {
                let built = boolean_query(Vec::new(), Vec::new());
                assert(query_shape(built)->required =~= Seq::empty());
                built
            }
        },
        Query::Boolean { clauses } => {
            let mut required: Vec<EngineQuery> = Vec::new();
            let mut optional: Vec<EngineQuery> = Vec::new();
            let mut i: usize = 0;
            proof {
                lemma_boolean_view(*query);
            }
            while i < clauses.len()
                invariant
                    i <= clauses.len(),
                    query_shapes(required@) == clause_shapes(query@, i as nat, Occur::Must, field),
                    query_shapes(optional@) == clause_shapes(
                        query@,
                        i as nat,
                        Occur::Should,
                        field,
                    ),
                decreases clauses.len() - i,
            {
                let clause = build(&clauses[i].1, field);
                match clauses[i].0 {
                    Occur::Must => required.push(clause),
                    Occur::Should => optional.push(clause),
                }
                i += 1;
            }
            boolean_query(required, optional)
        },
    }
}

/// Whatever the tokens and the field, the shape for the compound query
/// without suggestions is one that matches no document of any index.
pub proof fn lemma_compound_without_suggestions_never_matches(tokens: Seq<Seq<char>>, field: u32)
    ensures
        never_matches(shape_of(compound(tokens, Seq::empty()), field)),
{
    let query = compound(tokens, Seq::empty());
    let phrase = shape_of(QueryView::Phrase { terms: tokens }, field);
    let choice = shape_of(any_term(Seq::empty()), field);
    assert(never_matches(choice));
    reveal_with_fuel(clause_shapes, 3);
    assert(clause_shapes(query, 2, Occur::Must, field) =~= seq![phrase, choice]);
}

/// Each shape among those for the clauses of a kind is the shape of one of
/// the clauses of that kind: the result is the position of such a clause.
pub proof fn lemma_clause_of_shape(
    query: QueryView,
    count: nat,
    occur: Occur,
    field: u32,
    at: int,
) -> (clause: int)
    requires
        query is Boolean,
        count <= query->clauses.len(),
        0 <= at < clause_shapes(query, count, occur, field).len(),
    ensures
        0 <= clause < count,
        query->clauses[clause].0 == occur,
        clause_shapes(query, count, occur, field)[at] == shape_of(query->clauses[clause].1, field),
    decreases count,
{
    let before = clause_shapes(query, (count - 1) as nat, occur, field);
    if at < before.len() {
        lemma_clause_of_shape(query, (count - 1) as nat, occur, field, at)
    } else {
        count - 1
    }
}

/// The shape of each clause of a kind is among the shapes for the clauses
/// of that kind: the result is its position there.
pub proof fn lemma_shape_of_clause(
    query: QueryView,
    count: nat,
    occur: Occur,
    field: u32,
    clause: int,
) -> (at: int)
    requires
        query is Boolean,
        count <= query->clauses.len(),
        0 <= clause < count,
        query->clauses[clause].0 == occur,
    ensures
        0 <= at < clause_shapes(query, count, occur, field).len(),
        clause_shapes(query, count, occur, field)[at] == shape_of(query->clauses[clause].1, field),
    decreases count,
{
    let before = clause_shapes(query, (count - 1) as nat, occur, field);
    if clause < count - 1 {
        lemma_shape_of_clause(query, (count - 1) as nat, occur, field, clause)
    } else {
        before.len() as int
    }
}

/// A query that is built to a shape that never matches is matched by no
/// record, whatever its indexed tokens are.
pub proof fn lemma_never_matching_shape_matches_no_record(
    query: QueryView,
    field: u32,
    record: Seq<Seq<char>>,
)
    requires
        never_matches(shape_of(query, field)),
    ensures
        !query_matches(query, record),
    decreases query,
{
    match query {
        QueryView::Boolean { clauses } => {
            let shape = shape_of(query, field);
            let count = clauses.len();
            if exists|i: int|
                0 <= i < shape->required.len() && never_matches(#[trigger] shape->required[i]) {
                let i = choose|i: int|
                    0 <= i < shape->required.len() && never_matches(#[trigger] shape->required[i]);
                let clause = lemma_clause_of_shape(query, count, Occur::Must, field, i);
                lemma_never_matching_shape_matches_no_record(clauses[clause].1, field, record);
            } else {
                assert forall|clause: int| 0 <= clause < count implies !query_matches(
                    (#[trigger] clauses[clause]).1,
                    record,
                ) by {
                    if clauses[clause].0 == Occur::Must {
                        let at = lemma_shape_of_clause(query, count, Occur::Must, field, clause);
                    } else {
                        let at = lemma_shape_of_clause(query, count, Occur::Should, field, clause);
                        assert(never_matches(shape->optional[at]));
                        lemma_never_matching_shape_matches_no_record(
                            clauses[clause].1,
                            field,
                            record,
                        );
                    }
                }
            }
        },
        _ => {},
    }
}

/// A query that was built for a field reads no other field.
pub proof fn lemma_shape_reads_its_field(query: QueryView, field: u32, other: u32)
    requires
        shape_reads(shape_of(query, field), other),
    ensures
        other == field,
    decreases query, 1nat, 0nat,
{
    match query {
        QueryView::Boolean { clauses } => {
            let shape = shape_of(query, field);
            if exists|i: int|
                0 <= i < shape->required.len() && shape_reads(#[trigger] shape->required[i], other) {
                let i = choose|i: int|
                    0 <= i < shape->required.len() && shape_reads(
                        #[trigger] shape->required[i],
                        other,
                    );
                lemma_clause_shapes_read_their_field(
                    query,
                    clauses.len(),
                    Occur::Must,
                    field,
                    other,
                    i,
                );
            } else {
                let i = choose|i: int|
                    0 <= i < shape->optional.len() && shape_reads(
                        #[trigger] shape->optional[i],
                        other,
                    );
                lemma_clause_shapes_read_their_field(
                    query,
                    clauses.len(),
                    Occur::Should,
                    field,
                    other,
                    i,
                );
            }
        },
        _ => {},
    }
}

/// The shapes for the clauses of a query that was built for a field read no other field.
pub proof fn lemma_clause_shapes_read_their_field(
    query: QueryView,
    count: nat,
    occur: Occur,
    field: u32,
    other: u32,
    at: int,
)
    requires
        0 <= at < clause_shapes(query, count, occur, field).len(),
        shape_reads(clause_shapes(query, count, occur, field)[at], other),
    ensures
        other == field,
    decreases query, 0nat, count,
{
    match query {
        QueryView::Boolean { clauses } => {
            if count > 0 && count <= clauses.len() {
                let before = clause_shapes(query, (count - 1) as nat, occur, field);
                let clause = clauses[count - 1];
                if at < before.len() {
                    lemma_clause_shapes_read_their_field(
                        query,
                        (count - 1) as nat,
                        occur,
                        field,
                        other,
                        at,
                    );
                } else {
                    lemma_shape_reads_its_field(clause.1, field, other);
                }
            }
        },
        _ => {},
    }
}

} // verus!
