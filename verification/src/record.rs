//! Stored documents as plain values, and the matches that are read from them.

use vstd::prelude::*;
use crate::engine::doc_view;

verus! {

/// A stored document as plain values: each stored value with the number of
/// its field and, where it is a text, that text.
pub type StoredDoc = Seq<(u32, Option<Seq<char>>)>;

/// One ranked match as the search returns it.
#[derive(Debug, PartialEq, Eq)]
pub struct SearchResult {
    pub score: String,
    pub identifier: String,
    pub searchable_name: String,
    pub display_name: String,
    pub language: String,
}

/// A ranked match as a mathematical value.
pub struct SearchResultView {
    pub score: Seq<char>,
    pub identifier: Seq<char>,
    pub searchable_name: Seq<char>,
    pub display_name: Seq<char>,
    pub language: Seq<char>,
}

impl View for SearchResult {
    type V = SearchResultView;

    open spec fn view(&self) -> SearchResultView {
        SearchResultView {
            score: self.score@,
            identifier: self.identifier@,
            searchable_name: self.searchable_name@,
            display_name: self.display_name@,
            language: self.language@,
        }
    }
}

/// The views of a vector of results.
pub open spec fn result_views(results: Seq<SearchResult>) -> Seq<SearchResultView> {
    Seq::new(results.len(), |i: int| results[i]@)
}

/// The numbers of the four fields of the phrase index.
#[derive(Clone, Copy, PartialEq, Eq, Structural, Debug)]
pub struct RecordFields {
    pub identifier: u32,
    pub searchable_name: u32,
    pub display_name: u32,
    pub language: u32,
}

/// Whether the four fields have four different numbers.
pub open spec fn distinct_fields(fields: RecordFields) -> bool {
    &&& fields.identifier != fields.searchable_name
    &&& fields.identifier != fields.display_name
    &&& fields.identifier != fields.language
    &&& fields.searchable_name != fields.display_name
    &&& fields.searchable_name != fields.language
    &&& fields.display_name != fields.language
}

/// The first value that `doc` stores for `field`, where that value is a text.
pub open spec fn first_text_of(doc: StoredDoc, field: u32) -> Option<Seq<char>>
    decreases doc.len(),
{
    if doc.len() == 0 {
        None
    } else if doc[0].0 == field {
        doc[0].1
    } else {
        first_text_of(doc.drop_first(), field)
    }
}

/// The match that a stored document and its score make: the first text of
/// each of the four fields, as long as the document has them all.
pub open spec fn result_of(score: Seq<char>, doc: StoredDoc, fields: RecordFields) -> Option<
    SearchResultView,
> {
    match (
        first_text_of(doc, fields.identifier),
        first_text_of(doc, fields.searchable_name),
        first_text_of(doc, fields.display_name),
        first_text_of(doc, fields.language),
    ) {
        (Some(identifier), Some(searchable_name), Some(display_name), Some(language)) => Some(
            SearchResultView { score, identifier, searchable_name, display_name, language },
        ),
        _ => None,
    }
}

/// The first value that `doc` stores for `field`, if that value is a text.
pub fn first_text(doc: &Vec<(u32, Option<String>)>, field: u32) -> (text: Option<String>)
    ensures
        match text {
            Some(found) => first_text_of(doc_view(doc@), field) == Some(found@),
            None => first_text_of(doc_view(doc@), field) is None,
        },
{
    let mut i: usize = 0;
    assert(doc_view(doc@).skip(0) == doc_view(doc@));
    while i < doc.len()
        invariant
            i <= doc.len(),
            first_text_of(doc_view(doc@), field) == first_text_of(doc_view(doc@).skip(i as int), field),
        decreases doc.len() - i,
    {
        let ghost rest = doc_view(doc@).skip(i as int);
        assert(rest.drop_first() == doc_view(doc@).skip(i + 1));
        if doc[i].0 == field {
            return match &doc[i].1 {
                Some(found) => Some(found.clone()),
                None => None,
            };
        }
        i += 1;
    }
    None
}

/// Makes a stored document and its score into a match, or says that the
/// document lacks one of the four texts.
pub fn record_from(score: String, doc: &Vec<(u32, Option<String>)>, fields: RecordFields) -> (result:
    Option<SearchResult>)
    ensures
        match result {
            Some(made) => result_of(score@, doc_view(doc@), fields) == Some(made@),
            None => result_of(score@, doc_view(doc@), fields) is None,
        },
{
    let identifier = match first_text(doc, fields.identifier) {
        Some(text) => text,
        None => { return None; },
    };
    let searchable_name = match first_text(doc, fields.searchable_name) {
        Some(text) => text,
        None => { return None; },
    };
    let display_name = match first_text(doc, fields.display_name) {
        Some(text) => text,
        None => { return None; },
    };
    let language = match first_text(doc, fields.language) {
        Some(text) => text,
        None => { return None; },
    };
    Some(SearchResult { score, identifier, searchable_name, display_name, language })
}

} // verus!
