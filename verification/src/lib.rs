//! Search-as-you-type over a catalog of track names.
//!
//! A request is a raw text whose last token may be unfinished. The library
//! resolves that token to words of the catalog ([`suggest`]), composes the
//! query for the tokens and the suggestions ([`query`]), hands it to the
//! engine ([`translate`]) on the phrase index ([`index`]), reads the
//! matches ([`record`]) and writes them as JSON
//! ([`response`]); [`search`] holds the policy that ties these together.
//! [`schema`], [`analysis`] and [`catalog`] say what the two indices are
//! made of. [`engine`] is the boundary to the index engine.

pub mod analysis;
pub mod catalog;
pub mod engine;
pub mod error;
pub mod index;
pub mod query;
pub mod record;
pub mod response;
pub mod schema;
pub mod search;
pub mod suggest;
pub mod text;
pub mod translate;
