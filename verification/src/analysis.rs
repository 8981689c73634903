//! The tokenizers of the two indices: which steps each is made of, and
//! under which name each is registered with an index.

use vstd::prelude::*;
use crate::schema::{NGRAM_TOKENIZER, PHRASE_TOKENIZER, WORD_TOKENIZER};

verus! {

/// An analyzer: a tokenizer and the filters that follow it.
#[verifier::external_type_specification]
#[verifier::external_body]
pub struct ExTextAnalyzer(tantivy::tokenizer::TextAnalyzer);

/// The languages that the engine has a stemmer for. The variants are the engine's own.
#[verifier::external_type_specification]
pub struct ExStemmerLanguage(tantivy::tokenizer::Language);

/// The shortest leading piece of a word that is indexed.
pub const MIN_PIECE: usize = 1;

/// The longest leading piece of a word that is indexed.
pub const MAX_PIECE: usize = 10;

/// One step of an analyzer.
pub enum Step {
    /// Cuts the text into its runs of letters and digits.
    Words,
    /// Cuts the text into its pieces of `min` to `max` characters: all of
    /// them, or those at its start only.
    Pieces { min: usize, max: usize, prefix_only: bool },
    /// Puts every token in lower case.
    LowerCase,
    /// Reduces every token to its stem by the rules of a language.
    Stem { language: tantivy::tokenizer::Language },
}

/// The steps of an analyzer: its tokenizer, then its filters in the order
/// in which they are applied.
pub uninterp spec fn analysis(analyzer: tantivy::tokenizer::TextAnalyzer) -> Seq<Step>;

/// The analyzers that are registered with an index, each as its steps, by name.
pub uninterp spec fn tokenizers(index: tantivy::Index) -> Map<Seq<char>, Seq<Step>>;

/// `TextAnalyzer::from` on the `SimpleTokenizer`: an analyzer that cuts
/// words and does nothing else.
#[verifier::external_body]
fn word_analyzer() -> (analyzer: tantivy::tokenizer::TextAnalyzer)
    ensures
        analysis(analyzer) == seq![Step::Words],
{
    tantivy::tokenizer::TextAnalyzer::from(tantivy::tokenizer::SimpleTokenizer)
}

/// `TextAnalyzer::from` on `NgramTokenizer::new`: an analyzer that cuts
/// pieces and does nothing else. The tokenizer refuses a shortest piece of
/// no character, and one that is longer than the longest.
#[verifier::external_body]
fn piece_analyzer(min: usize, max: usize, prefix_only: bool) -> (analyzer:
    tantivy::tokenizer::TextAnalyzer)
    requires
        0 < min <= max,
    ensures
        analysis(analyzer) == seq![Step::Pieces { min, max, prefix_only }],
{
    tantivy::tokenizer::TextAnalyzer::from(
        tantivy::tokenizer::NgramTokenizer::new(min, max, prefix_only),
    )
}

/// `TextAnalyzer::filter` with the `LowerCaser`: the same steps, then lower case.
#[verifier::external_body]
fn lower_cased(analyzer: tantivy::tokenizer::TextAnalyzer) -> (longer:
    tantivy::tokenizer::TextAnalyzer)
    ensures
        analysis(longer) == analysis(analyzer).push(Step::LowerCase),
{
    analyzer.filter(tantivy::tokenizer::LowerCaser)
}

/// `TextAnalyzer::filter` with `Stemmer::new`: the same steps, then the
/// stemmer of the language.
#[verifier::external_body]
fn stemmed(analyzer: tantivy::tokenizer::TextAnalyzer, language: tantivy::tokenizer::Language) -> (longer:
    tantivy::tokenizer::TextAnalyzer)
    ensures
        analysis(longer) == analysis(analyzer).push(Step::Stem { language }),
{
    analyzer.filter(tantivy::tokenizer::Stemmer::new(language))
}

/// `TokenizerManager::register` on the tokenizers of the index: the index
/// has the analyzer under the name afterwards, in place of what it had
/// there, and its other analyzers as before.
#[verifier::external_body]
fn register(index: tantivy::Index, name: &str, analyzer: tantivy::tokenizer::TextAnalyzer) -> (registered:
    tantivy::Index)
    ensures
        tokenizers(registered) == tokenizers(index).insert(name@, analysis(analyzer)),
{
    index.tokenizers().register(name, analyzer);
    index
}

/// The steps of the analyzer for words: words in lower case, stemmed as
/// English and then as Russian.
pub open spec fn word_analysis() -> Seq<Step> {
    seq![
        Step::Words,
        Step::LowerCase,
        Step::Stem { language: tantivy::tokenizer::Language::English },
        Step::Stem { language: tantivy::tokenizer::Language::Russian },
    ]
}

/// The steps of the analyzer for the leading pieces of a word.
pub open spec fn piece_analysis() -> Seq<Step> {
    seq![Step::Pieces { min: MIN_PIECE, max: MAX_PIECE, prefix_only: true }]
}

/// The steps of the analyzer for searchable names: words in lower case.
pub open spec fn phrase_analysis() -> Seq<Step> {
    seq![Step::Words, Step::LowerCase]
}

/// Registers the two analyzers of the word index with the index: that for
/// words and that for the leading pieces of a word.
pub fn apply_words_index_tokenizator(index: tantivy::Index) -> (registered: tantivy::Index)
    ensures
        tokenizers(registered) == tokenizers(index).insert(WORD_TOKENIZER@, word_analysis()).insert(
            NGRAM_TOKENIZER@,
            piece_analysis(),
        ),
{
    let words = stemmed(
        stemmed(lower_cased(word_analyzer()), tantivy::tokenizer::Language::English),
        tantivy::tokenizer::Language::Russian,
    );
    assert(analysis(words) =~= word_analysis());
    let index = register(index, WORD_TOKENIZER, words);
    register(index, NGRAM_TOKENIZER, piece_analyzer(MIN_PIECE, MAX_PIECE, true))
}

/// Registers the analyzer of the phrase index with the index.
pub fn apply_phrases_index_tokenizator(index: tantivy::Index) -> (registered: tantivy::Index)
    ensures
        tokenizers(registered) == tokenizers(index).insert(PHRASE_TOKENIZER@, phrase_analysis()),
{
    let names = lower_cased(word_analyzer());
    assert(analysis(names) =~= phrase_analysis());
    register(index, PHRASE_TOKENIZER, names)
}

} // verus!
