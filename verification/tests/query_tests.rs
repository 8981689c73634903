use fast_search::query::{compose, compose_any_term, compose_compound, Occur, Query};

fn strings(texts: &[&str]) -> Vec<String> {
    texts.iter().map(|text| text.to_string()).collect()
}

fn term(value: &str) -> Query {
    Query::Term { value: value.to_string() }
}

fn phrase(terms: &[&str]) -> Query {
    Query::Phrase { terms: strings(terms) }
}

#[test]
fn single_token_composes_the_exact_term() {
    assert_eq!(compose(&strings(&["hopes"]), &strings(&[])), term("hopes"));
}

#[test]
fn single_token_ignores_the_suggestions() {
    assert_eq!(compose(&strings(&["hopes"]), &strings(&["hope", "hopes"])), term("hopes"));
}

#[test]
fn single_token_is_taken_as_it_is() {
    assert_eq!(compose(&strings(&["HoPes"]), &strings(&[])), term("HoPes"));
}

#[test]
fn several_tokens_compose_the_phrase_and_the_alternatives() {
    let query = compose(&strings(&["high", "hopes"]), &strings(&["hopes", "hope"]));
    let expected = Query::Boolean {
        clauses: vec![
            (Occur::Must, phrase(&["high", "hopes"])),
            (
                Occur::Must,
                Query::Boolean {
                    clauses: vec![(Occur::Should, term("hopes")), (Occur::Should, term("hope"))],
                },
            ),
        ],
    };
    assert_eq!(query, expected);
}

#[test]
fn several_tokens_without_suggestions_compose_an_empty_choice() {
    let query = compose(&strings(&["high", "hopes", "ololo"]), &strings(&[]));
    let expected = Query::Boolean {
        clauses: vec![
            (Occur::Must, phrase(&["high", "hopes", "ololo"])),
            (Occur::Must, Query::Boolean { clauses: vec![] }),
        ],
    };
    assert_eq!(query, expected);
}

#[test]
fn tokens_keep_their_case_and_their_empty_pieces() {
    let query = compose(&strings(&["High", "", "Hopes"]), &strings(&["x"]));
    let expected = Query::Boolean {
        clauses: vec![
            (Occur::Must, phrase(&["High", "", "Hopes"])),
            (Occur::Must, Query::Boolean { clauses: vec![(Occur::Should, term("x"))] }),
        ],
    };
    assert_eq!(query, expected);
}

#[test]
fn compound_of_a_single_token_keeps_the_compound_shape() {
    let query = compose_compound(&strings(&["hopez"]), &strings(&["hopes"]));
    let expected = Query::Boolean {
        clauses: vec![
            (Occur::Must, phrase(&["hopez"])),
            (Occur::Must, Query::Boolean { clauses: vec![(Occur::Should, term("hopes"))] }),
        ],
    };
    assert_eq!(query, expected);
}

#[test]
fn any_term_lists_every_suggestion_in_order() {
    let query = compose_any_term(&strings(&["b", "a", "b"]));
    let expected = Query::Boolean {
        clauses: vec![
            (Occur::Should, term("b")),
            (Occur::Should, term("a")),
            (Occur::Should, term("b")),
        ],
    };
    assert_eq!(query, expected);
}
