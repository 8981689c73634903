//! The suggestion resolver: from a partial or misspelled token to the
//! words of the catalog that it may stand for.

use vstd::prelude::*;
use crate::error::SearchError;
use crate::index::{WordSession, SUGGESTION_LIMIT};
use crate::text::{blank, is_blank, lowercase, texts, to_lowercase};

verus! {

/// `items` with every repeat dropped, next to the first occurrence or far
/// from it: what is left is the first occurrence of each text, in order.
pub open spec fn distinct(items: Seq<Seq<char>>) -> Seq<Seq<char>>
    decreases items.len(),
{
    if items.len() == 0 {
        Seq::empty()
    } else {
        let before = distinct(items.drop_last());
        if before.contains(items.last()) {
            before
        } else {
            before.push(items.last())
        }
    }
}

/// What is left after dropping the repeats holds no text twice, holds
/// exactly the texts that were there, and is no longer than before.
pub proof fn lemma_distinct(items: Seq<Seq<char>>)
    ensures
        distinct(items).no_duplicates(),
        forall|text: Seq<char>| distinct(items).contains(text) <==> items.contains(text),
        distinct(items).len() <= items.len(),
    decreases items.len(),
{
    if items.len() > 0 {
        let shorter = items.drop_last();
        let last = items.last();
        lemma_distinct(shorter);
        let before = distinct(shorter);
        assert forall|text: Seq<char>| distinct(items).contains(text) <==> items.contains(
            text,
        ) by {
            if items.contains(text) {
                let at = choose|at: int| 0 <= at < items.len() && items[at] == text;
                if at < shorter.len() {
                    assert(shorter[at] == text);
                    assert(shorter.contains(text));
                    assert(before.contains(text));
                    let found = choose|found: int| 0 <= found < before.len() && before[found] == text;
                    assert(distinct(items)[found] == text);
                } else {
                    if !before.contains(last) {
                        assert(distinct(items)[before.len() as int] == text);
                    }
                }
            }
            if distinct(items).contains(text) {
                let at = choose|at: int| 0 <= at < distinct(items).len() && distinct(items)[at] == text;
                if at < before.len() {
                    assert(before[at] == text);
                    assert(shorter.contains(text));
                    let found = choose|found: int| 0 <= found < shorter.len() && shorter[found] == text;
                    assert(items[found] == text);
                } else {
                    assert(items[items.len() - 1] == text);
                }
            }
        }
    }
}

/// Dropping the repeats leaves a sequence without repeats as it is.
pub proof fn lemma_distinct_keeps_distinct(items: Seq<Seq<char>>)
    requires
        items.no_duplicates(),
    ensures
        distinct(items) == items,
    decreases items.len(),
{
    if items.len() > 0 {
        let shorter = items.drop_last();
        lemma_distinct_keeps_distinct(shorter);
        lemma_distinct(shorter);
        if shorter.contains(items.last()) {
            let at = choose|at: int| 0 <= at < shorter.len() && shorter[at] == items.last();
            assert(items[at] == items[items.len() - 1]);
        }
        assert(shorter.push(items.last()) == items);
    }
}

/// Whether `item` is among `seen`.
fn seen_before(seen: &Vec<String>, item: &String) -> (found: bool)
    ensures
        found == texts(seen@).contains(item@),
{
    let mut i: usize = 0;
    while i < seen.len()
        invariant
            i <= seen.len(),
            forall|k: int| 0 <= k < i ==> texts(seen@)[k] != item@,
        decreases seen.len() - i,
    {
        if seen[i] == *item {
            assert(texts(seen@)[i as int] == item@);
            return true;
        }
        i += 1;
    }
    false
}

/// Drops every repeat from `items` and keeps the first occurrence of each
/// text, in order.
pub fn dedup(items: Vec<String>) -> (kept: Vec<String>)
    ensures
        texts(kept@) == distinct(texts(items@)),
        texts(kept@).no_duplicates(),
        kept.len() <= items.len(),
        forall|text: Seq<char>| texts(kept@).contains(text) <==> texts(items@).contains(text),
{
    let mut kept: Vec<String> = Vec::new();
    let mut i: usize = 0;
    assert(texts(items@).take(0) == Seq::<Seq<char>>::empty());
    while i < items.len()
        invariant
            i <= items.len(),
            texts(kept@) == distinct(texts(items@).take(i as int)),
        decreases items.len() - i,
    {
        let ghost seen = texts(items@).take(i as int);
        let ghost longer = texts(items@).take(i + 1);
        assert(longer.drop_last() == seen);
        assert(longer.last() == items[i as int]@);
        if !seen_before(&kept, &items[i]) {
            let ghost before = texts(kept@);
            kept.push(items[i].clone());
            assert(texts(kept@) == before.push(items[i as int]@));
        }
        i += 1;
    }
    proof {
        assert(texts(items@).take(items.len() as int) == texts(items@));
        lemma_distinct(texts(items@));
    }
    kept
}

/// What the resolver does once the structured lookup has answered.
#[derive(Debug, PartialEq, Eq)]
pub enum NextLookup {
    /// The structured lookup found something: these are the suggestions.
    Done { suggestions: Vec<String> },
    /// The structured lookup found nothing: look `term` up by edit distance.
    Fallback { term: String },
}

/// Decides what follows the structured lookup for `token`, which found
/// `found`. The edit-distance lookup is asked for exactly when nothing was
/// found, and then for the token in lower case; otherwise the suggestions
/// are what was found, without repeats.
pub fn after_structured_lookup(token: &str, found: Vec<String>) -> (next: NextLookup)
    ensures
        found.len() == 0 <==> next is Fallback,
        next matches NextLookup::Fallback { term } ==> term@ == lowercase(token@),
        next matches NextLookup::Done { suggestions } ==> texts(suggestions@) == distinct(
            texts(found@),
        ),
{
    if found.len() == 0 {
        NextLookup::Fallback { term: to_lowercase(token) }
    } else {
        NextLookup::Done { suggestions: dedup(found) }
    }
}

/// Whether `outcome` is an answer of `lookup` to `text`.
pub open spec fn looked_up<L>(lookup: L, text: Seq<char>, outcome: Result<Vec<String>, SearchError>) -> bool where
    L: Fn(&str) -> Result<Vec<String>, SearchError>,
 {
    exists|asked: &str| asked@ == text && #[trigger] call_ensures(lookup, (asked,), outcome)
}

/// Whether `outcome` is what resolving `token` comes to with these two
/// lookups: nothing for a blank token; otherwise what the structured lookup
/// answered for the token, without repeats, and only where that is nothing,
/// what the edit-distance lookup answered for the token in lower case,
/// without repeats; the error of a lookup where it failed.
pub open spec fn resolved<S, F>(
    token: Seq<char>,
    structured: S,
    fuzzy: F,
    outcome: Result<Vec<String>, SearchError>,
) -> bool where
    S: Fn(&str) -> Result<Vec<String>, SearchError>,
    F: Fn(&str) -> Result<Vec<String>, SearchError>,
 {
    if is_blank(token) {
        outcome matches Ok(none) && none.len() == 0
    } else {
        exists|first: Result<Vec<String>, SearchError>| #[trigger]
            looked_up(structured, token, first) && match first {
                Err(error) => outcome == Err::<Vec<String>, SearchError>(error),
                Ok(found) => if found.len() > 0 {
                    outcome matches Ok(kept) && texts(kept@) == distinct(texts(found@))
                } else {
                    exists|second: Result<Vec<String>, SearchError>| #[trigger]
                        looked_up(fuzzy, lowercase(token), second) && match second {
                            Err(error) => outcome == Err::<Vec<String>, SearchError>(error),
                            Ok(near) => outcome matches Ok(kept) && texts(kept@) == distinct(
                                texts(near@),
                            ),
                        }
                },
            }
    }
}

/// Where the structured lookup answers with one match or more, whenever
/// it answers, the edit-distance lookup has no say: what resolving a token
/// comes to is the same with any other edit-distance lookup in its place.
pub proof fn lemma_fallback_has_no_say<S, F, G>(
    token: Seq<char>,
    structured: S,
    fuzzy: F,
    other: G,
    outcome: Result<Vec<String>, SearchError>,
) where
    S: Fn(&str) -> Result<Vec<String>, SearchError>,
    F: Fn(&str) -> Result<Vec<String>, SearchError>,
    G: Fn(&str) -> Result<Vec<String>, SearchError>,

    requires
        resolved(token, structured, fuzzy, outcome),
        forall|asked: &str, first: Result<Vec<String>, SearchError>| #[trigger]
            call_ensures(structured, (asked,), first) ==> (first matches Ok(found) && found.len()
                > 0),
    ensures
        resolved(token, structured, other, outcome),
{
    if !is_blank(token) {
        let first = choose|first: Result<Vec<String>, SearchError>| #[trigger]
            looked_up(structured, token, first) && match first {
                Err(error) => outcome == Err::<Vec<String>, SearchError>(error),
                Ok(found) => if found.len() > 0 {
                    outcome matches Ok(kept) && texts(kept@) == distinct(texts(found@))
                } else {
                    exists|second: Result<Vec<String>, SearchError>| #[trigger]
                        looked_up(fuzzy, lowercase(token), second) && match second {
                            Err(error) => outcome == Err::<Vec<String>, SearchError>(error),
                            Ok(near) => outcome matches Ok(kept) && texts(kept@) == distinct(
                                texts(near@),
                            ),
                        }
                },
            };
        assert(looked_up(structured, token, first));
    }
}

/// Whatever the token and the two lookups are, no suggestion comes twice.
pub proof fn lemma_resolved_without_repeats<S, F>(
    token: Seq<char>,
    structured: S,
    fuzzy: F,
    outcome: Result<Vec<String>, SearchError>,
) where
    S: Fn(&str) -> Result<Vec<String>, SearchError>,
    F: Fn(&str) -> Result<Vec<String>, SearchError>,

    requires
        resolved(token, structured, fuzzy, outcome),
    ensures
        outcome matches Ok(kept) ==> texts(kept@).no_duplicates(),
{
    if is_blank(token) {
        assert(texts(outcome->Ok_0@) =~= Seq::<Seq<char>>::empty());
    } else {
        let first = choose|first: Result<Vec<String>, SearchError>| #[trigger]
            looked_up(structured, token, first) && match first {
                Err(error) => outcome == Err::<Vec<String>, SearchError>(error),
                Ok(found) => if found.len() > 0 {
                    outcome matches Ok(kept) && texts(kept@) == distinct(texts(found@))
                } else {
                    exists|second: Result<Vec<String>, SearchError>| #[trigger]
                        looked_up(fuzzy, lowercase(token), second) && match second {
                            Err(error) => outcome == Err::<Vec<String>, SearchError>(error),
                            Ok(near) => outcome matches Ok(kept) && texts(kept@) == distinct(
                                texts(near@),
                            ),
                        }
                },
            };
        match first {
            Ok(found) => {
                if found.len() > 0 {
                    lemma_distinct(texts(found@));
                } else {
                    let second = choose|second: Result<Vec<String>, SearchError>| #[trigger]
                        looked_up(fuzzy, lowercase(token), second) && match second {
                            Err(error) => outcome == Err::<Vec<String>, SearchError>(error),
                            Ok(near) => outcome matches Ok(kept) && texts(kept@) == distinct(
                                texts(near@),
                            ),
                        };
                    match second {
                        Ok(near) => {
                            lemma_distinct(texts(near@));
                        },
                        Err(_) => {},
                    }
                }
            },
            Err(_) => {},
        }
    }
}

/// A blank token has no suggestions, whatever the two lookups are.
pub proof fn lemma_blank_token_asks_nothing<S, F>(
    token: Seq<char>,
    structured: S,
    fuzzy: F,
    outcome: Result<Vec<String>, SearchError>,
) where
    S: Fn(&str) -> Result<Vec<String>, SearchError>,
    F: Fn(&str) -> Result<Vec<String>, SearchError>,

    requires
        is_blank(token),
    ensures
        resolved(token, structured, fuzzy, outcome) <==> (outcome matches Ok(none) && none.len()
            == 0),
{
}

/// Resolves a token to its suggestions with the two lookups that it is
/// given. A blank token has no suggestions, and neither lookup is asked.
/// Otherwise the structured lookup is asked for the token, and only where
/// it finds nothing, the edit-distance lookup for the token in lower case.
/// What was found comes back without repeats; a lookup that fails, fails
/// the resolver with its error.
pub fn resolve_with<S, F>(token: &str, structured: S, fuzzy: F) -> (suggestions: Result<
    Vec<String>,
    SearchError,
>) where
    S: Fn(&str) -> Result<Vec<String>, SearchError>,
    F: Fn(&str) -> Result<Vec<String>, SearchError>,

    requires
        forall|text: &str| call_requires(structured, (text,)),
        forall|text: &str| call_requires(fuzzy, (text,)),
    ensures
        resolved(token@, structured, fuzzy, suggestions),
{
    if blank(token) {
        return Ok(Vec::new());
    }
    let first = structured(token);
    assert(looked_up(structured, token@, first));
    let found = match first {
        Ok(found) => found,
        Err(error) => {
            return Err(error);
        },
    };
    match after_structured_lookup(token, found) {
        NextLookup::Done { suggestions } => Ok(suggestions),
        NextLookup::Fallback { term } => {
            let second = fuzzy(term.as_str());
            assert(looked_up(fuzzy, lowercase(token@), second));
            match second {
                Ok(near) => Ok(dedup(near)),
                Err(error) => Err(error),
            }
        },
    }
}

/// Whether `outcome` is what resolving `token` on a word session comes to:
/// nothing for a blank token; otherwise what the structured lookup of the
/// session answered for the token, without repeats, and only where that is
/// nothing, what its edit-distance lookup answered for the token in lower
/// case, without repeats; the error of a lookup where it failed.
pub open spec fn resolved_on(
    words: &WordSession,
    token: Seq<char>,
    outcome: Result<Vec<String>, SearchError>,
) -> bool {
    if is_blank(token) {
        outcome matches Ok(none) && none.len() == 0
    } else {
        exists|first: Result<Vec<String>, SearchError>| #[trigger]
            words.structured_answer(token, first) && match first {
                Err(error) => outcome == Err::<Vec<String>, SearchError>(error),
                Ok(found) => if found.len() > 0 {
                    outcome matches Ok(kept) && texts(kept@) == distinct(texts(found@))
                } else {
                    exists|second: Result<Vec<String>, SearchError>| #[trigger]
                        words.fuzzy_answer(lowercase(token), second) && match second {
                            Err(error) => outcome == Err::<Vec<String>, SearchError>(error),
                            Ok(near) => outcome matches Ok(kept) && texts(kept@) == distinct(
                                texts(near@),
                            ),
                        }
                },
            }
    }
}

/// What resolving a token comes to with two lookups whose answers are
/// those of the two lookups of a word session, is what resolving the token
/// on that session comes to.
pub proof fn lemma_resolved_on<S, F>(
    words: &WordSession,
    token: Seq<char>,
    structured: S,
    fuzzy: F,
    outcome: Result<Vec<String>, SearchError>,
) where
    S: Fn(&str) -> Result<Vec<String>, SearchError>,
    F: Fn(&str) -> Result<Vec<String>, SearchError>,

    requires
        resolved(token, structured, fuzzy, outcome),
        forall|asked: &str, found: Result<Vec<String>, SearchError>| #[trigger]
            call_ensures(structured, (asked,), found) ==> words.structured_answer(asked@, found),
        forall|asked: &str, found: Result<Vec<String>, SearchError>| #[trigger]
            call_ensures(fuzzy, (asked,), found) ==> words.fuzzy_answer(asked@, found),
    ensures
        resolved_on(words, token, outcome),
{
    if !is_blank(token) {
        let first = choose|first: Result<Vec<String>, SearchError>| #[trigger]
            looked_up(structured, token, first) && match first {
                Err(error) => outcome == Err::<Vec<String>, SearchError>(error),
                Ok(found) => if found.len() > 0 {
                    outcome matches Ok(kept) && texts(kept@) == distinct(texts(found@))
                } else {
                    exists|second: Result<Vec<String>, SearchError>| #[trigger]
                        looked_up(fuzzy, lowercase(token), second) && match second {
                            Err(error) => outcome == Err::<Vec<String>, SearchError>(error),
                            Ok(near) => outcome matches Ok(kept) && texts(kept@) == distinct(
                                texts(near@),
                            ),
                        }
                },
            };
        assert(words.structured_answer(token, first));
        match first {
            Ok(found) => {
                if found.len() == 0 {
                    let second = choose|second: Result<Vec<String>, SearchError>| #[trigger]
                        looked_up(fuzzy, lowercase(token), second) && match second {
                            Err(error) => outcome == Err::<Vec<String>, SearchError>(error),
                            Ok(near) => outcome matches Ok(kept) && texts(kept@) == distinct(
                                texts(near@),
                            ),
                        };
                    assert(words.fuzzy_answer(lowercase(token), second));
                }
            },
            Err(_) => {},
        }
    }
}

/// What resolving a token on a word session comes to is at most
/// `SUGGESTION_LIMIT` words of the index, none of them twice, or an error
/// of a lookup; and it is nothing for a blank token.
pub proof fn lemma_resolved_on_finds(
    words: &WordSession,
    token: Seq<char>,
    outcome: Result<Vec<String>, SearchError>,
)
    requires
        resolved_on(words, token, outcome),
    ensures
        known_words(words, outcome),
        outcome matches Ok(kept) ==> texts(kept@).no_duplicates(),
        is_blank(token) ==> (outcome matches Ok(none) && none.len() == 0),
{
    if is_blank(token) {
        assert(texts(outcome->Ok_0@) =~= Seq::<Seq<char>>::empty());
    } else {
        let first = choose|first: Result<Vec<String>, SearchError>| #[trigger]
            words.structured_answer(token, first) && match first {
                Err(error) => outcome == Err::<Vec<String>, SearchError>(error),
                Ok(found) => if found.len() > 0 {
                    outcome matches Ok(kept) && texts(kept@) == distinct(texts(found@))
                } else {
                    exists|second: Result<Vec<String>, SearchError>| #[trigger]
                        words.fuzzy_answer(lowercase(token), second) && match second {
                            Err(error) => outcome == Err::<Vec<String>, SearchError>(error),
                            Ok(near) => outcome matches Ok(kept) && texts(kept@) == distinct(
                                texts(near@),
                            ),
                        }
                },
            };
        words.lemma_structured_answer_finds(token, first);
        match first {
            Ok(found) => {
                if found.len() > 0 {
                    lemma_distinct_of_known(words, found@, outcome->Ok_0@);
                } else {
                    let second = choose|second: Result<Vec<String>, SearchError>| #[trigger]
                        words.fuzzy_answer(lowercase(token), second) && match second {
                            Err(error) => outcome == Err::<Vec<String>, SearchError>(error),
                            Ok(near) => outcome matches Ok(kept) && texts(kept@) == distinct(
                                texts(near@),
                            ),
                        };
                    words.lemma_fuzzy_answer_finds(lowercase(token), second);
                    match second {
                        Ok(near) => {
                            lemma_distinct_of_known(words, near@, outcome->Ok_0@);
                        },
                        Err(_) => {},
                    }
                }
            },
            Err(_) => {},
        }
    }
}

/// Resolves a token to its suggestions on the word index, as `resolve_with`
/// does with the two lookups of the session: what `resolved_on` says. No
/// suggestion comes twice, and each is a word of the index.
pub fn resolve(words: &WordSession, token: &str) -> (suggestions: Result<Vec<String>, SearchError>)
    ensures
        resolved_on(words, token@, suggestions),
        is_blank(token@) ==> (suggestions matches Ok(none) && none.len() == 0),
        suggestions matches Ok(found) ==> {
            &&& texts(found@).no_duplicates()
            &&& found.len() <= SUGGESTION_LIMIT
            &&& forall|i: int| 0 <= i < found.len() ==> words.knows(#[trigger] found[i]@)
        },
        suggestions matches Err(error) ==> error == SearchError::MalformedQuery || error
            == SearchError::EngineFault || error == SearchError::MalformedRecord,
{
    let structured = |text: &str| -> (found: Result<Vec<String>, SearchError>)
        ensures
            known_words(words, found),
            words.structured_answer(text@, found),
        { words.structured_lookup(text) };
    let fuzzy = |text: &str| -> (found: Result<Vec<String>, SearchError>)
        ensures
            known_words(words, found),
            words.fuzzy_answer(text@, found),
        { words.fuzzy_lookup(text) };
    let suggestions = resolve_with(token, structured, fuzzy);
    proof {
        lemma_resolved_on(words, token@, structured, fuzzy, suggestions);
        if !is_blank(token@) {
            let first = choose|first: Result<Vec<String>, SearchError>| #[trigger]
                looked_up(structured, token@, first) && match first {
                    Err(error) => suggestions == Err::<Vec<String>, SearchError>(error),
                    Ok(found) => if found.len() > 0 {
                        suggestions matches Ok(kept) && texts(kept@) == distinct(texts(found@))
                    } else {
                        exists|second: Result<Vec<String>, SearchError>| #[trigger]
                            looked_up(fuzzy, lowercase(token@), second) && match second {
                                Err(error) => suggestions == Err::<Vec<String>, SearchError>(error),
                                Ok(near) => suggestions matches Ok(kept) && texts(kept@) == distinct(
                                    texts(near@),
                                ),
                            }
                    },
                };
            assert(known_words(words, first));
            match first {
                Ok(found) => {
                    if found.len() > 0 {
                        lemma_distinct_of_known(words, found@, suggestions->Ok_0@);
                    } else {
                        let second = choose|second: Result<Vec<String>, SearchError>| #[trigger]
                            looked_up(fuzzy, lowercase(token@), second) && match second {
                                Err(error) => suggestions == Err::<Vec<String>, SearchError>(error),
                                Ok(near) => suggestions matches Ok(kept) && texts(kept@) == distinct(
                                    texts(near@),
                                ),
                            };
                        assert(known_words(words, second));
                        match second {
                            Ok(near) => {
                                lemma_distinct_of_known(words, near@, suggestions->Ok_0@);
                            },
                            Err(_) => {},
                        }
                    }
                },
                Err(_) => {},
            }
        } else {
            assert(texts(suggestions->Ok_0@) =~= Seq::<Seq<char>>::empty());
        }
    }
    suggestions
}

/// Whether the outcome of a lookup in the word index is as every such
/// outcome is: at most `SUGGESTION_LIMIT` words of the index, or one of
/// the errors of a lookup.
pub open spec fn known_words(words: &WordSession, outcome: Result<Vec<String>, SearchError>) -> bool {
    match outcome {
        Ok(found) => {
            &&& found.len() <= SUGGESTION_LIMIT
            &&& forall|i: int| 0 <= i < found.len() ==> words.knows(#[trigger] found[i]@)
        },
        Err(error) => error == SearchError::MalformedQuery || error == SearchError::EngineFault
            || error == SearchError::MalformedRecord,
    }
}

/// Dropping the repeats from words of the index leaves words of the index,
/// no more of them, and none twice.
pub proof fn lemma_distinct_of_known(words: &WordSession, found: Seq<String>, kept: Seq<String>)
    requires
        forall|i: int| 0 <= i < found.len() ==> words.knows(#[trigger] found[i]@),
        texts(kept) == distinct(texts(found)),
    ensures
        texts(kept).no_duplicates(),
        kept.len() <= found.len(),
        forall|i: int| 0 <= i < kept.len() ==> words.knows(#[trigger] kept[i]@),
{
    lemma_distinct(texts(found));
    assert forall|i: int| 0 <= i < kept.len() implies words.knows(#[trigger] kept[i]@) by {
        assert(texts(kept)[i] == kept[i]@);
        assert(texts(found).contains(kept[i]@));
        let at = choose|at: int| 0 <= at < texts(found).len() && texts(found)[at] == kept[i]@;
        assert(words.knows(found[at]@));
    }
    assert(texts(kept).len() == kept.len());
    assert(texts(found).len() == found.len());
}

} // verus!
