//! The search orchestrator: from the raw text of a request to its matches.

use vstd::prelude::*;
use crate::error::SearchError;
use crate::index::{PhraseSession, Phrases, WordSession, Words, RESULT_LIMIT};
use crate::record::{result_views, SearchResult, SearchResultView};
use crate::query::{
    compose, compose_compound, composed, compound, lemma_composed_single_token, query_matches,
    Query, QueryView,
};
use crate::response::{json_text, render, response_json};
use crate::suggest::{known_words, lemma_resolved_on_finds, looked_up, resolve, resolved_on};
use crate::translate::lemma_compound_without_suggestions_never_matches;
use crate::text::{
    blank, is_blank, lemma_single_piece, lemma_split_spaces, split_on_space, split_spaces, texts,
};

verus! {

/// What a raw text asks for.
#[derive(Debug, PartialEq, Eq)]
pub enum Plan {
    /// The text is blank: there is nothing to look for.
    Nothing,
    /// The text is one token.
    Single { tokens: Vec<String> },
    /// The text is several tokens. The last of them may be unfinished: it
    /// is the one to resolve suggestions for, unless it is blank.
    Multiple { tokens: Vec<String>, partial: Option<String> },
}

/// A plan as a mathematical value.
pub enum PlanView {
    Nothing,
    Single { tokens: Seq<Seq<char>> },
    Multiple { tokens: Seq<Seq<char>>, partial: Option<Seq<char>> },
}

impl View for Plan {
    type V = PlanView;

    open spec fn view(&self) -> PlanView {
        match self {
            Plan::Nothing => PlanView::Nothing,
            Plan::Single { tokens } => PlanView::Single { tokens: texts(tokens@) },
            Plan::Multiple { tokens, partial } => PlanView::Multiple {
                tokens: texts(tokens@),
                partial: match partial {
                    Some(token) => Some(token@),
                    None => None,
                },
            },
        }
    }
}

/// The plan for a raw text: nothing for a blank text; otherwise its pieces
/// between single spaces, empty pieces included, as one token or as
/// several, and then with the last piece as the partial token where that
/// piece is not blank.
pub open spec fn planned(raw_text: Seq<char>) -> PlanView {
    let tokens = split_spaces(raw_text);
    if is_blank(raw_text) {
        PlanView::Nothing
    } else if tokens.len() == 1 {
        PlanView::Single { tokens }
    } else {
        PlanView::Multiple {
            tokens,
            partial: if is_blank(tokens.last()) {
                None
            } else {
                Some(tokens.last())
            },
        }
    }
}

/// A text that is not blank and holds no space is planned as the single
/// token that it is.
pub proof fn lemma_word_is_single(raw_text: Seq<char>)
    requires
        !is_blank(raw_text),
        !raw_text.contains(' '),
    ensures
        planned(raw_text) == (PlanView::Single { tokens: seq![raw_text] }),
{
    lemma_single_piece(raw_text);
    assert(split_spaces(raw_text) == seq![raw_text]);
}

/// A text that is not blank and holds no space asks for the exact lookup of
/// itself: the query composed for its plan matches exactly the records that
/// have the text among their indexed tokens.
pub proof fn lemma_single_token_is_looked_up_exactly(raw_text: Seq<char>, record: Seq<Seq<char>>)
    requires
        !is_blank(raw_text),
        !raw_text.contains(' '),
    ensures
        planned(raw_text) == (PlanView::Single { tokens: seq![raw_text] }),
        query_matches(composed(seq![raw_text], Seq::empty()), record) <==> record.contains(raw_text),
{
    lemma_word_is_single(raw_text);
    lemma_composed_single_token(raw_text, Seq::empty(), record);
}

/// Decides from the raw text alone what the request asks for.
pub fn plan(raw_text: &str) -> (made: Plan)
    ensures
        made@ == planned(raw_text@),
        made matches Plan::Single { tokens } ==> tokens.len() == 1,
        made matches Plan::Multiple { tokens, partial } ==> tokens.len() >= 2,
{
    if blank(raw_text) {
        return Plan::Nothing;
    }
    proof {
        lemma_split_spaces(raw_text@);
    }
    let tokens = split_on_space(raw_text);
    if tokens.len() == 1 {
        Plan::Single { tokens }
    } else {
        let last = &tokens[tokens.len() - 1];
        let partial = if blank(last.as_str()) {
            None
        } else {
            Some(last.clone())
        };
        Plan::Multiple { tokens, partial }
    }
}

/// What follows the exact lookup of a single token.
#[derive(Debug, PartialEq, Eq)]
pub enum Escalation {
    /// The exact lookup matched: these matches are the answer.
    Answer { results: Vec<SearchResult> },
    /// The exact lookup matched nothing: resolve suggestions and ask again.
    Escalate,
}

/// Decides what follows the exact lookup of a single token, which found
/// `first`: the search escalates exactly when nothing was found, and
/// otherwise answers with what was found, as it is.
pub fn after_exact_lookup(first: Vec<SearchResult>) -> (next: Escalation)
    ensures
        first.len() == 0 <==> next is Escalate,
        next matches Escalation::Answer { results } ==> results == first,
{
    if first.len() == 0 {
        Escalation::Escalate
    } else {
        Escalation::Answer { results: first }
    }
}

/// Whether `outcome` is an answer of `evaluate` to `query`.
pub open spec fn evaluated<E>(
    evaluate: E,
    query: QueryView,
    outcome: Result<Vec<SearchResult>, SearchError>,
) -> bool where E: Fn(&Query) -> Result<Vec<SearchResult>, SearchError> {
    exists|asked: &Query| asked@ == query && #[trigger] call_ensures(evaluate, (asked,), outcome)
}

/// Whether `outcome` is the answer of `evaluate` to the compound query of
/// `tokens` and of the suggestions that `resolve` gives for `token`, or the
/// error of `resolve`.
pub open spec fn with_suggestions<E, R>(
    evaluate: E,
    resolve: R,
    token: Seq<char>,
    tokens: Seq<Seq<char>>,
    outcome: Result<Vec<SearchResult>, SearchError>,
) -> bool where
    E: Fn(&Query) -> Result<Vec<SearchResult>, SearchError>,
    R: Fn(&str) -> Result<Vec<String>, SearchError>,
 {
    exists|suggestions: Result<Vec<String>, SearchError>| #[trigger]
        looked_up(resolve, token, suggestions) && match suggestions {
            Err(error) => outcome == Err::<Vec<SearchResult>, SearchError>(error),
            Ok(words) => evaluated(evaluate, compound(tokens, texts(words@)), outcome),
        }
}

/// Whether `outcome` is what a request comes to with this evaluation of
/// queries and this resolution of tokens.
///
/// A blank text comes to no matches. A single token comes to the answer
/// for its exact term; only where that is empty, to the answer for the
/// compound query of the token and of the suggestions for the whole text.
/// Several tokens come to the answer for the compound query of all tokens
/// and of the suggestions for the last one, which are none where that
/// token is blank. An evaluation or a resolution that fails, fails the
/// request with its error.
pub open spec fn searched<E, R>(
    raw_text: Seq<char>,
    evaluate: E,
    resolve: R,
    outcome: Result<Vec<SearchResult>, SearchError>,
) -> bool where
    E: Fn(&Query) -> Result<Vec<SearchResult>, SearchError>,
    R: Fn(&str) -> Result<Vec<String>, SearchError>,
 {
    match planned(raw_text) {
        PlanView::Nothing => outcome matches Ok(none) && none.len() == 0,
        PlanView::Single { tokens } => exists|first: Result<Vec<SearchResult>, SearchError>| #[trigger]
            evaluated(evaluate, composed(tokens, Seq::empty()), first) && match first {
                Err(error) => outcome == Err::<Vec<SearchResult>, SearchError>(error),
                Ok(found) => if found.len() > 0 {
                    outcome == first
                } else {
                    with_suggestions(evaluate, resolve, raw_text, tokens, outcome)
                },
            },
        PlanView::Multiple { tokens, partial } => match partial {
            None => evaluated(evaluate, compound(tokens, Seq::empty()), outcome),
            Some(token) => with_suggestions(evaluate, resolve, token, tokens, outcome),
        },
    }
}

/// Where the evaluation answers the exact term of a single token with one
/// match or more, whenever it answers, the request comes to such an answer
/// as it is: the matches of the exact term are the matches of the request.
pub proof fn lemma_exact_matches_are_the_answer<E, R>(
    raw_text: Seq<char>,
    evaluate: E,
    resolve: R,
    outcome: Result<Vec<SearchResult>, SearchError>,
) where
    E: Fn(&Query) -> Result<Vec<SearchResult>, SearchError>,
    R: Fn(&str) -> Result<Vec<String>, SearchError>,

    requires
        !is_blank(raw_text),
        !raw_text.contains(' '),
        searched(raw_text, evaluate, resolve, outcome),
        forall|asked: &Query, first: Result<Vec<SearchResult>, SearchError>|
            asked@ == (QueryView::Term { value: raw_text }) && #[trigger] call_ensures(
                evaluate,
                (asked,),
                first,
            ) ==> (first matches Ok(found) && found.len() > 0),
    ensures
        evaluated(evaluate, QueryView::Term { value: raw_text }, outcome),
        outcome matches Ok(found) && found.len() > 0,
{
    lemma_word_is_single(raw_text);
    let tokens = seq![raw_text];
    let first = choose|first: Result<Vec<SearchResult>, SearchError>| #[trigger]
        evaluated(evaluate, composed(tokens, Seq::empty()), first) && match first {
            Err(error) => outcome == Err::<Vec<SearchResult>, SearchError>(error),
            Ok(found) => if found.len() > 0 {
                outcome == first
            } else {
                with_suggestions(evaluate, resolve, raw_text, tokens, outcome)
            },
        };
    assert(evaluated(evaluate, composed(tokens, Seq::empty()), first));
}

/// A blank text comes to no matches, whatever the evaluation of queries
/// and the resolution of tokens are.
pub proof fn lemma_blank_request_asks_nothing<E, R>(
    raw_text: Seq<char>,
    evaluate: E,
    resolve: R,
    outcome: Result<Vec<SearchResult>, SearchError>,
) where
    E: Fn(&Query) -> Result<Vec<SearchResult>, SearchError>,
    R: Fn(&str) -> Result<Vec<String>, SearchError>,

    requires
        is_blank(raw_text),
    ensures
        searched(raw_text, evaluate, resolve, outcome) <==> (outcome matches Ok(none) && none.len()
            == 0),
{
}

/// Runs a request with the evaluation of queries and the resolution of
/// tokens that it is given.
///
/// A blank text gives no matches, and nothing is asked. A single token is
/// looked up as an exact term; only when that matches nothing, suggestions
/// for the whole text are resolved and the compound query of the token and
/// the suggestions is evaluated. Several tokens give the compound query of
/// all tokens and of the suggestions for the last one, which are none where
/// that token is blank. An evaluation or a resolution that fails, fails the
/// request with its error.
pub fn search_with<E, R>(raw_text: &str, evaluate: E, resolve: R) -> (results: Result<
    Vec<SearchResult>,
    SearchError,
>) where
    E: Fn(&Query) -> Result<Vec<SearchResult>, SearchError>,
    R: Fn(&str) -> Result<Vec<String>, SearchError>,

    requires
        forall|query: &Query| call_requires(evaluate, (query,)),
        forall|token: &str| call_requires(resolve, (token,)),
    ensures
        searched(raw_text@, evaluate, resolve, results),
{
    match plan(raw_text) {
        Plan::Nothing => Ok(Vec::new()),
        Plan::Single { tokens } => {
            let exact = compose(&tokens, &Vec::new());
            let first = evaluate(&exact);
            assert(evaluated(evaluate, composed(texts(tokens@), Seq::empty()), first));
            let found = match first {
                Ok(found) => found,
                Err(error) => {
                    return Err(error);
                },
            };
            match after_exact_lookup(found) {
                Escalation::Answer { results } => Ok(results),
                Escalation::Escalate => {
                    let suggestions = resolve(raw_text);
                    assert(looked_up(resolve, raw_text@, suggestions));
                    let words = match suggestions {
                        Ok(words) => words,
                        Err(error) => {
                            return Err(error);
                        },
                    };
                    let wider = compose_compound(&tokens, &words);
                    let results = evaluate(&wider);
                    assert(evaluated(
                        evaluate,
                        compound(texts(tokens@), texts(words@)),
                        results,
                    ));
                    results
                },
            }
        },
        Plan::Multiple { tokens, partial } => {
            let words = match partial {
                Some(token) => {
                    let suggestions = resolve(token.as_str());
                    assert(looked_up(resolve, token@, suggestions));
                    match suggestions {
                        Ok(words) => words,
                        Err(error) => {
                            return Err(error);
                        },
                    }
                },
                None => {
                    let none: Vec<String> = Vec::new();
                    assert(texts(none@) =~= Seq::<Seq<char>>::empty());
                    none
                },
            };
            let query = compose(&tokens, &words);
            let results = evaluate(&query);
            assert(evaluated(evaluate, compound(texts(tokens@), texts(words@)), results));
            results
        },
    }
}

/// Whether `outcome` is the answer of the phrase session to the compound
/// query of `tokens` and of the suggestions that `token` resolves to on
/// the word session, or the error of the resolution.
pub open spec fn with_suggestions_on(
    words: &WordSession,
    phrases: &PhraseSession,
    token: Seq<char>,
    tokens: Seq<Seq<char>>,
    outcome: Result<Vec<SearchResult>, SearchError>,
) -> bool {
    exists|suggestions: Result<Vec<String>, SearchError>| #[trigger]
        resolved_on(words, token, suggestions) && match suggestions {
            Err(error) => outcome == Err::<Vec<SearchResult>, SearchError>(error),
            Ok(found) => phrases.evaluates(compound(tokens, texts(found@)), outcome),
        }
}

/// Whether `outcome` is what a request comes to on the two sessions: as
/// `searched` says, with the evaluation of the phrase session and the
/// resolution of the word session.
pub open spec fn searched_on(
    words: &WordSession,
    phrases: &PhraseSession,
    raw_text: Seq<char>,
    outcome: Result<Vec<SearchResult>, SearchError>,
) -> bool {
    match planned(raw_text) {
        PlanView::Nothing => outcome matches Ok(none) && none.len() == 0,
        PlanView::Single { tokens } => exists|first: Result<Vec<SearchResult>, SearchError>| #[trigger]
            phrases.evaluates(composed(tokens, Seq::empty()), first) && match first {
                Err(error) => outcome == Err::<Vec<SearchResult>, SearchError>(error),
                Ok(found) => if found.len() > 0 {
                    outcome == first
                } else {
                    with_suggestions_on(words, phrases, raw_text, tokens, outcome)
                },
            },
        PlanView::Multiple { tokens, partial } => match partial {
            None => phrases.evaluates(compound(tokens, Seq::empty()), outcome),
            Some(token) => with_suggestions_on(words, phrases, token, tokens, outcome),
        },
    }
}

/// What a request comes to with an evaluation whose answers are those of a
/// phrase session, and a resolution whose answers are those of a word
/// session, is what the request comes to on the two sessions.
pub proof fn lemma_searched_on<E, R>(
    words: &WordSession,
    phrases: &PhraseSession,
    raw_text: Seq<char>,
    evaluate: E,
    resolve: R,
    outcome: Result<Vec<SearchResult>, SearchError>,
) where
    E: Fn(&Query) -> Result<Vec<SearchResult>, SearchError>,
    R: Fn(&str) -> Result<Vec<String>, SearchError>,

    requires
        searched(raw_text, evaluate, resolve, outcome),
        forall|query: &Query, found: Result<Vec<SearchResult>, SearchError>| #[trigger]
            call_ensures(evaluate, (query,), found) ==> phrases.evaluates(query@, found),
        forall|token: &str, found: Result<Vec<String>, SearchError>| #[trigger]
            call_ensures(resolve, (token,), found) ==> resolved_on(words, token@, found),
    ensures
        searched_on(words, phrases, raw_text, outcome),
{
    match planned(raw_text) {
        PlanView::Nothing => {},
        PlanView::Single { tokens } => {
            let first = choose|first: Result<Vec<SearchResult>, SearchError>| #[trigger]
                evaluated(evaluate, composed(tokens, Seq::empty()), first) && match first {
                    Err(error) => outcome == Err::<Vec<SearchResult>, SearchError>(error),
                    Ok(found) => if found.len() > 0 {
                        outcome == first
                    } else {
                        with_suggestions(evaluate, resolve, raw_text, tokens, outcome)
                    },
                };
            assert(phrases.evaluates(composed(tokens, Seq::empty()), first));
            match first {
                Ok(found) => {
                    if found.len() == 0 {
                        lemma_with_suggestions_on(
                            words,
                            phrases,
                            raw_text,
                            tokens,
                            evaluate,
                            resolve,
                            outcome,
                        );
                    }
                },
                Err(_) => {},
            }
        },
        PlanView::Multiple { tokens, partial } => {
            match partial {
                None => {},
                Some(token) => {
                    lemma_with_suggestions_on(
                        words,
                        phrases,
                        token,
                        tokens,
                        evaluate,
                        resolve,
                        outcome,
                    );
                },
            }
        },
    }
}

/// The same for the part of a request that resolves suggestions and
/// evaluates the compound query with them.
pub proof fn lemma_with_suggestions_on<E, R>(
    words: &WordSession,
    phrases: &PhraseSession,
    token: Seq<char>,
    tokens: Seq<Seq<char>>,
    evaluate: E,
    resolve: R,
    outcome: Result<Vec<SearchResult>, SearchError>,
) where
    E: Fn(&Query) -> Result<Vec<SearchResult>, SearchError>,
    R: Fn(&str) -> Result<Vec<String>, SearchError>,

    requires
        with_suggestions(evaluate, resolve, token, tokens, outcome),
        forall|query: &Query, found: Result<Vec<SearchResult>, SearchError>| #[trigger]
            call_ensures(evaluate, (query,), found) ==> phrases.evaluates(query@, found),
        forall|token: &str, found: Result<Vec<String>, SearchError>| #[trigger]
            call_ensures(resolve, (token,), found) ==> resolved_on(words, token@, found),
    ensures
        with_suggestions_on(words, phrases, token, tokens, outcome),
{
    let suggestions = choose|suggestions: Result<Vec<String>, SearchError>| #[trigger]
        looked_up(resolve, token, suggestions) && match suggestions {
            Err(error) => outcome == Err::<Vec<SearchResult>, SearchError>(error),
            Ok(found) => evaluated(evaluate, compound(tokens, texts(found@)), outcome),
        };
    assert(resolved_on(words, token, suggestions));
}

/// Runs a request on the two sessions, as `search_with` does with the
/// evaluation of the phrase session and the resolution of the word
/// session: what `searched_on` says. Whatever is returned are records of
/// the phrase session, at most `RESULT_LIMIT`, best first, and none where
/// the last of several tokens is blank.
pub fn search_in(words: &WordSession, phrases: &PhraseSession, raw_text: &str) -> (results: Result<
    Vec<SearchResult>,
    SearchError,
>)
    ensures
        searched_on(words, phrases, raw_text@, results),
        is_blank(raw_text@) ==> (results matches Ok(none) && none.len() == 0),
        results matches Ok(found) ==> {
            &&& found.len() <= RESULT_LIMIT
            &&& planned(raw_text@) matches PlanView::Multiple { partial: None, .. } ==> found.len()
                == 0
            &&& forall|i: int| 0 <= i < found.len() ==> phrases.holds(#[trigger] found[i]@)
        },
        results matches Err(error) ==> error == SearchError::MalformedQuery || error
            == SearchError::EngineFault || error == SearchError::MalformedRecord,
{
    let evaluate = |query: &Query| -> (found: Result<Vec<SearchResult>, SearchError>)
        ensures
            phrases.answers(query@, found),
            phrases.evaluates(query@, found),
        { phrases.evaluate(query) };
    let suggest = |token: &str| -> (found: Result<Vec<String>, SearchError>)
        ensures
            known_words(words, found),
            resolved_on(words, token@, found),
        { resolve(words, token) };
    let results = search_with(raw_text, evaluate, suggest);
    proof {
        lemma_search_answers(phrases, words, raw_text@, evaluate, suggest, results);
        lemma_searched_on(words, phrases, raw_text@, evaluate, suggest, results);
    }
    results
}

/// Whatever a request comes to with an evaluation whose answers are those
/// of a phrase session, and a resolution whose answers are words of a word
/// session, is itself an answer of the phrase session or an error of one
/// of the two, and it is empty where the last of several tokens is blank.
pub proof fn lemma_search_answers<E, R>(
    phrases: &PhraseSession,
    words: &WordSession,
    raw_text: Seq<char>,
    evaluate: E,
    resolve: R,
    outcome: Result<Vec<SearchResult>, SearchError>,
) where
    E: Fn(&Query) -> Result<Vec<SearchResult>, SearchError>,
    R: Fn(&str) -> Result<Vec<String>, SearchError>,

    requires
        searched(raw_text, evaluate, resolve, outcome),
        forall|query: &Query, found: Result<Vec<SearchResult>, SearchError>| #[trigger]
            call_ensures(evaluate, (query,), found) ==> phrases.answers(query@, found),
        forall|token: &str, found: Result<Vec<String>, SearchError>| #[trigger]
            call_ensures(resolve, (token,), found) ==> known_words(words, found),
    ensures
        is_blank(raw_text) ==> (outcome matches Ok(none) && none.len() == 0),
        outcome matches Ok(found) ==> {
            &&& found.len() <= RESULT_LIMIT
            &&& planned(raw_text) matches PlanView::Multiple { partial: None, .. } ==> found.len()
                == 0
            &&& forall|i: int| 0 <= i < found.len() ==> phrases.holds(#[trigger] found[i]@)
        },
        outcome matches Err(error) ==> error == SearchError::MalformedQuery || error
            == SearchError::EngineFault || error == SearchError::MalformedRecord,
{
    let field = phrases.fields().searchable_name;
    match planned(raw_text) {
        PlanView::Nothing => {},
        PlanView::Single { tokens } => {
            let first = choose|first: Result<Vec<SearchResult>, SearchError>| #[trigger]
                evaluated(evaluate, composed(tokens, Seq::empty()), first) && match first {
                    Err(error) => outcome == Err::<Vec<SearchResult>, SearchError>(error),
                    Ok(found) => if found.len() > 0 {
                        outcome == first
                    } else {
                        with_suggestions(evaluate, resolve, raw_text, tokens, outcome)
                    },
                };
            match first {
                Ok(found) => {
                    if found.len() == 0 {
                        lemma_with_suggestions_answers(
                            phrases,
                            words,
                            raw_text,
                            tokens,
                            evaluate,
                            resolve,
                            outcome,
                        );
                    }
                },
                Err(_) => {},
            }
        },
        PlanView::Multiple { tokens, partial } => {
            match partial {
                None => {
                    lemma_compound_without_suggestions_never_matches(tokens, field);
                },
                Some(token) => {
                    lemma_with_suggestions_answers(
                        phrases,
                        words,
                        token,
                        tokens,
                        evaluate,
                        resolve,
                        outcome,
                    );
                },
            }
        },
    }
}

/// The same for the part of a request that resolves suggestions and
/// evaluates the compound query with them.
pub proof fn lemma_with_suggestions_answers<E, R>(
    phrases: &PhraseSession,
    words: &WordSession,
    token: Seq<char>,
    tokens: Seq<Seq<char>>,
    evaluate: E,
    resolve: R,
    outcome: Result<Vec<SearchResult>, SearchError>,
) where
    E: Fn(&Query) -> Result<Vec<SearchResult>, SearchError>,
    R: Fn(&str) -> Result<Vec<String>, SearchError>,

    requires
        with_suggestions(evaluate, resolve, token, tokens, outcome),
        forall|query: &Query, found: Result<Vec<SearchResult>, SearchError>| #[trigger]
            call_ensures(evaluate, (query,), found) ==> phrases.answers(query@, found),
        forall|token: &str, found: Result<Vec<String>, SearchError>| #[trigger]
            call_ensures(resolve, (token,), found) ==> known_words(words, found),
    ensures
        outcome matches Ok(found) ==> {
            &&& found.len() <= RESULT_LIMIT
            &&& forall|i: int| 0 <= i < found.len() ==> phrases.holds(#[trigger] found[i]@)
        },
        outcome matches Err(error) ==> error == SearchError::MalformedQuery || error
            == SearchError::EngineFault || error == SearchError::MalformedRecord,
{
    let suggestions = choose|suggestions: Result<Vec<String>, SearchError>| #[trigger]
        looked_up(resolve, token, suggestions) && match suggestions {
            Err(error) => outcome == Err::<Vec<SearchResult>, SearchError>(error),
            Ok(found) => evaluated(evaluate, compound(tokens, texts(found@)), outcome),
        };
    assert(known_words(words, suggestions));
}

/// Where resolving the token comes to no suggestions, whenever it comes
/// to any, the compound query finds nothing.
pub proof fn lemma_without_suggestions_nothing_is_found(
    words: &WordSession,
    phrases: &PhraseSession,
    token: Seq<char>,
    tokens: Seq<Seq<char>>,
    outcome: Result<Vec<SearchResult>, SearchError>,
)
    requires
        with_suggestions_on(words, phrases, token, tokens, outcome),
        forall|suggestions: Result<Vec<String>, SearchError>| #[trigger]
            resolved_on(words, token, suggestions) ==> (suggestions matches Ok(found)
                ==> found.len() == 0),
    ensures
        outcome matches Ok(found) ==> found.len() == 0,
{
    let suggestions = choose|suggestions: Result<Vec<String>, SearchError>| #[trigger]
        resolved_on(words, token, suggestions) && match suggestions {
            Err(error) => outcome == Err::<Vec<SearchResult>, SearchError>(error),
            Ok(found) => phrases.evaluates(compound(tokens, texts(found@)), outcome),
        };
    match suggestions {
        Ok(found) => {
            assert(texts(found@) =~= Seq::<Seq<char>>::empty());
            phrases.lemma_evaluates_answers(compound(tokens, Seq::empty()), outcome);
            lemma_compound_without_suggestions_never_matches(
                tokens,
                phrases.fields().searchable_name,
            );
        },
        Err(_) => {},
    }
}

/// What a request comes to on the two sessions is at most `RESULT_LIMIT`
/// records of the phrase session, or an error of an evaluation or of a
/// lookup. It is nothing for a blank text and where the last of several
/// tokens is blank. It is nothing, too, where the exact term of a single
/// token finds nothing, whenever it is looked up, and the token that is
/// resolved comes to no suggestions, whenever it comes to any.
pub proof fn lemma_searched_on_answers(
    words: &WordSession,
    phrases: &PhraseSession,
    raw_text: Seq<char>,
    outcome: Result<Vec<SearchResult>, SearchError>,
)
    requires
        searched_on(words, phrases, raw_text, outcome),
    ensures
        is_blank(raw_text) ==> (outcome matches Ok(none) && none.len() == 0),
        outcome matches Ok(found) ==> {
            &&& found.len() <= RESULT_LIMIT
            &&& planned(raw_text) matches PlanView::Multiple { partial: None, .. } ==> found.len()
                == 0
            &&& forall|i: int| 0 <= i < found.len() ==> phrases.holds(#[trigger] found[i]@)
        },
        outcome matches Err(error) ==> error == SearchError::MalformedQuery || error
            == SearchError::EngineFault || error == SearchError::MalformedRecord,
        ({
            &&& planned(raw_text) matches PlanView::Single { tokens } ==> forall|
                first: Result<Vec<SearchResult>, SearchError>,
            | #[trigger]
                phrases.evaluates(composed(tokens, Seq::empty()), first) ==> (first matches Ok(
                    found,
                ) ==> found.len() == 0)
            &&& forall|token: Seq<char>, suggestions: Result<Vec<String>, SearchError>| #[trigger]
                resolved_on(words, token, suggestions) ==> (suggestions matches Ok(found)
                    ==> found.len() == 0)
        }) ==> (outcome matches Ok(found) ==> found.len() == 0),
{
    let field = phrases.fields().searchable_name;
    match planned(raw_text) {
        PlanView::Nothing => {},
        PlanView::Single { tokens } => {
            let first = choose|first: Result<Vec<SearchResult>, SearchError>| #[trigger]
                phrases.evaluates(composed(tokens, Seq::empty()), first) && match first {
                    Err(error) => outcome == Err::<Vec<SearchResult>, SearchError>(error),
                    Ok(found) => if found.len() > 0 {
                        outcome == first
                    } else {
                        with_suggestions_on(words, phrases, raw_text, tokens, outcome)
                    },
                };
            phrases.lemma_evaluates_answers(composed(tokens, Seq::empty()), first);
            match first {
                Ok(found) => {
                    if found.len() == 0 {
                        lemma_with_suggestions_on_answers(words, phrases, raw_text, tokens, outcome);
                    }
                },
                Err(_) => {},
            }
        },
        PlanView::Multiple { tokens, partial } => {
            match partial {
                None => {
                    phrases.lemma_evaluates_answers(compound(tokens, Seq::empty()), outcome);
                    lemma_compound_without_suggestions_never_matches(tokens, field);
                },
                Some(token) => {
                    lemma_with_suggestions_on_answers(words, phrases, token, tokens, outcome);
                },
            }
        },
    }
}

/// The same for the part of a request that resolves suggestions and
/// evaluates the compound query with them.
pub proof fn lemma_with_suggestions_on_answers(
    words: &WordSession,
    phrases: &PhraseSession,
    token: Seq<char>,
    tokens: Seq<Seq<char>>,
    outcome: Result<Vec<SearchResult>, SearchError>,
)
    requires
        with_suggestions_on(words, phrases, token, tokens, outcome),
    ensures
        outcome matches Ok(found) ==> {
            &&& found.len() <= RESULT_LIMIT
            &&& forall|i: int| 0 <= i < found.len() ==> phrases.holds(#[trigger] found[i]@)
        },
        outcome matches Err(error) ==> error == SearchError::MalformedQuery || error
            == SearchError::EngineFault || error == SearchError::MalformedRecord,
        (forall|suggestions: Result<Vec<String>, SearchError>| #[trigger]
            resolved_on(words, token, suggestions) ==> (suggestions matches Ok(found)
                ==> found.len() == 0)) ==> (outcome matches Ok(found) ==> found.len() == 0),
{
    let suggestions = choose|suggestions: Result<Vec<String>, SearchError>| #[trigger]
        resolved_on(words, token, suggestions) && match suggestions {
            Err(error) => outcome == Err::<Vec<SearchResult>, SearchError>(error),
            Ok(found) => phrases.evaluates(compound(tokens, texts(found@)), outcome),
        };
    lemma_resolved_on_finds(words, token, suggestions);
    match suggestions {
        Ok(found) => {
            phrases.lemma_evaluates_answers(compound(tokens, texts(found@)), outcome);
        },
        Err(_) => {},
    }
    if forall|suggestions: Result<Vec<String>, SearchError>| #[trigger]
        resolved_on(words, token, suggestions) ==> (suggestions matches Ok(found) ==> found.len()
            == 0) {
        lemma_without_suggestions_nothing_is_found(words, phrases, token, tokens, outcome);
    }
}

/// Whether `answer` is what a request that is not blank comes to on the
/// two indices: the refusal of the session on the word index, else that
/// of the session on the phrase index, where one is refused; else what the
/// request comes to on the two sessions, as `searched_on` says: its error,
/// or its matches written as the JSON text of `response_json`.
pub open spec fn answered(
    words: &Words,
    phrases: &Phrases,
    raw_text: Seq<char>,
    answer: Result<String, SearchError>,
) -> bool {
    exists|word_opened: Result<WordSession, SearchError>| #[trigger]
        WordSession::opened(&words.reader, words.conjunction, word_opened) && match word_opened {
            Err(error) => answer == Err::<String, SearchError>(error),
            Ok(word_session) => exists|phrase_opened: Result<PhraseSession, SearchError>| #[trigger]
                PhraseSession::opened(&phrases.reader, phrase_opened) && match phrase_opened {
                    Err(error) => answer == Err::<String, SearchError>(error),
                    Ok(phrase_session) => written(&word_session, &phrase_session, raw_text, answer),
                },
        }
}

/// Whether `answer` is what a request comes to on the two sessions, once
/// it is written: the error of the request, or its matches as the JSON
/// text of `response_json`.
pub open spec fn written(
    words: &WordSession,
    phrases: &PhraseSession,
    raw_text: Seq<char>,
    answer: Result<String, SearchError>,
) -> bool {
    exists|outcome: Result<Vec<SearchResult>, SearchError>| #[trigger]
        searched_on(words, phrases, raw_text, outcome) && match outcome {
            Err(error) => answer == Err::<String, SearchError>(error),
            Ok(found) => answer matches Ok(text) && text@ == json_text(
                response_json(result_views(found@)),
            ),
        }
}

/// Answers a request with the JSON text of its matches.
///
/// A blank text is answered with the empty response without opening either
/// index. Otherwise a session is opened on the word index and one on the
/// phrase index, the request runs on them as `search_in` says, and the
/// matches are written as `render` says. An error of any of these steps is
/// the answer as it is. Where the last of several tokens is blank, the
/// answer is the empty response or an error.
pub fn search(words: &Words, phrases: &Phrases, raw_text: &str) -> (answer: Result<
    String,
    SearchError,
>)
    ensures
        is_blank(raw_text@) ==> (answer matches Ok(text) && text@ == json_text(
            response_json(Seq::empty()),
        )),
        !is_blank(raw_text@) ==> answered(words, phrases, raw_text@, answer),
        (!is_blank(raw_text@) && answer is Ok) ==> exists|
            word_session: WordSession,
            phrase_session: PhraseSession,
            outcome: Result<Vec<SearchResult>, SearchError>,
        | #[trigger]
            searched_on(&word_session, &phrase_session, raw_text@, outcome) && outcome is Ok
                && word_session.lent_by(&words.reader) && phrase_session.lent_by(&phrases.reader)
                && answer->Ok_0@ == json_text(response_json(result_views(outcome->Ok_0@))),
        planned(raw_text@) matches PlanView::Multiple { partial: None, .. } ==> (answer matches Ok(
            text,
        ) ==> text@ == json_text(response_json(Seq::empty()))),
        answer matches Ok(text) ==> exists|results: Seq<SearchResultView>|
            results.len() <= RESULT_LIMIT && text@ == json_text(#[trigger] response_json(results)),
        answer matches Err(error) ==> error == SearchError::MissingField || error
            == SearchError::MalformedQuery || error == SearchError::EngineFault || error
            == SearchError::MalformedRecord,
{
    if blank(raw_text) {
        let none: Vec<SearchResult> = Vec::new();
        assert(result_views(none@) == Seq::<SearchResultView>::empty());
        return Ok(render(&none));
    }
    let word_opened = WordSession::open(words);
    let word_session = match word_opened {
        Ok(session) => session,
        Err(error) => {
            return Err(error);
        },
    };
    let phrase_opened = PhraseSession::open(phrases);
    let phrase_session = match phrase_opened {
        Ok(session) => session,
        Err(error) => {
            assert(answered(
                words,
                phrases,
                raw_text@,
                Err::<String, SearchError>(error),
            ));
            return Err(error);
        },
    };
    let outcome = search_in(&word_session, &phrase_session, raw_text);
    let answer = match outcome {
        Ok(found) => {
            proof {
                if planned(raw_text@) matches PlanView::Multiple { partial: None, .. } {
                    assert(result_views(found@) =~= Seq::<SearchResultView>::empty());
                }
            }
            Ok(render(&found))
        },
        Err(error) => Err(error),
    };
    assert(written(&word_session, &phrase_session, raw_text@, answer));
    assert(answered(words, phrases, raw_text@, answer));
    answer
}

} // verus!
