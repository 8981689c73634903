use vstd::prelude::*;

verus! {

/// Why a request could not be answered. Finding nothing is not among these:
/// it is an ordinary, successful outcome.
#[derive(Clone, Copy, PartialEq, Eq, Structural, Debug)]
pub enum SearchError {
    /// The index has no indexed field of a name that the search relies on,
    /// or the word index has a field that is not an indexed text field.
    MissingField,
    /// The free-text parser refused the token.
    MalformedQuery,
    /// The index engine failed while it evaluated a query or read a document.
    EngineFault,
    /// A matched document lacks a stored text that every record carries.
    MalformedRecord,
}

} // verus!
