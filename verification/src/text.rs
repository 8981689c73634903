//! Plain text handling: whitespace, splitting a query into tokens, lower case.

use vstd::prelude::*;

verus! {

/// Whether `c` carries the Unicode `White_Space` property.
pub open spec fn is_whitespace(c: char) -> bool {
    let n = c as u32;
    (0x09 <= n <= 0x0D) || n == 0x20 || n == 0x85 || n == 0xA0 || n == 0x1680 || (0x2000 <= n
        <= 0x200A) || n == 0x2028 || n == 0x2029 || n == 0x202F || n == 0x205F || n == 0x3000
}

/// `s` with every whitespace character dropped and the others kept in order.
pub open spec fn without_whitespace(s: Seq<char>) -> Seq<char> {
    s.filter(|c: char| !is_whitespace(c))
}

/// Whether `s` holds nothing but whitespace. The empty text is blank.
pub open spec fn is_blank(s: Seq<char>) -> bool {
    forall|i: int| 0 <= i < s.len() ==> is_whitespace(#[trigger] s[i])
}

/// The pieces of `s` between its spaces (U+0020), in order. A text without
/// a space is its own single piece; two spaces in a row, or a space at
/// either end, give an empty piece.
pub open spec fn split_spaces(s: Seq<char>) -> Seq<Seq<char>>
    decreases s.len(),
{
    if s.len() == 0 {
        seq![Seq::empty()]
    } else {
        let before = split_spaces(s.drop_last());
        if s.last() == ' ' {
            before.push(Seq::empty())
        } else {
            before.drop_last().push(before.last().push(s.last()))
        }
    }
}

/// The pieces put back together with one space between neighbours.
pub open spec fn join_spaces(pieces: Seq<Seq<char>>) -> Seq<char>
    decreases pieces.len(),
{
    if pieces.len() == 0 {
        Seq::empty()
    } else if pieces.len() == 1 {
        pieces[0]
    } else {
        join_spaces(pieces.drop_last()).push(' ') + pieces.last()
    }
}

/// The texts that a vector of strings holds.
pub open spec fn texts(strings: Seq<String>) -> Seq<Seq<char>> {
    Seq::new(strings.len(), |i: int| strings[i]@)
}

/// The lower-case form that `str::to_lowercase` gives a text.
pub uninterp spec fn lowercase(s: Seq<char>) -> Seq<char>;

/// `String::push` appends one character at the end of the string.
pub assume_specification[ String::push ](s: &mut String, c: char)
    ensures
        final(s)@ == old(s)@.push(c),
;

/// `str::to_lowercase`: the lower-case form of the whole text, by the
/// Unicode rules that the standard library follows.
#[verifier::external_body]
pub(crate) fn to_lowercase(s: &str) -> (lower: String)
    ensures
        lower@ == lowercase(s@),
{
    s.to_lowercase()
}

/// Splitting always gives at least one piece, none of the pieces holds a
/// space, and joining the pieces with spaces gives the text back.
pub proof fn lemma_split_spaces(s: Seq<char>)
    ensures
        split_spaces(s).len() >= 1,
        forall|i: int| 0 <= i < split_spaces(s).len() ==> !(#[trigger] split_spaces(s)[i]).contains(' '),
        join_spaces(split_spaces(s)) == s,
    decreases s.len(),
{
    if s.len() > 0 {
        let shorter = s.drop_last();
        lemma_split_spaces(shorter);
        let before = split_spaces(shorter);
        let pieces = split_spaces(s);
        if s.last() == ' ' {
            assert(pieces.drop_last() == before);
        } else if before.len() > 1 {
            let head = join_spaces(before.drop_last()).push(' ');
            assert(pieces.drop_last() == before.drop_last());
            assert(head + pieces.last() == (head + before.last()).push(s.last()));
        }
    }
}

/// A text splits into exactly one piece when it holds no space, and that
/// piece is then the text itself.
pub proof fn lemma_single_piece(s: Seq<char>)
    ensures
        split_spaces(s).len() == 1 <==> !s.contains(' '),
        split_spaces(s).len() == 1 ==> split_spaces(s)[0] == s,
    decreases s.len(),
{
    lemma_split_spaces(s);
    if s.len() > 0 {
        let shorter = s.drop_last();
        lemma_single_piece(shorter);
        lemma_split_spaces(shorter);
        if s.last() != ' ' {
            if s.contains(' ') {
                let at = choose|at: int| 0 <= at < s.len() && s[at] == ' ';
                assert(shorter[at] == ' ');
            }
            if shorter.contains(' ') {
                let at = choose|at: int| 0 <= at < shorter.len() && shorter[at] == ' ';
                assert(s[at] == ' ');
            }
        }
    }
}

/// A text is blank exactly when dropping its whitespace leaves nothing.
pub proof fn lemma_blank_leaves_nothing(s: Seq<char>)
    ensures
        is_blank(s) <==> without_whitespace(s).len() == 0,
    decreases s.len(),
{
    reveal(Seq::filter);
    if s.len() > 0 {
        let shorter = s.drop_last();
        lemma_blank_leaves_nothing(shorter);
        if without_whitespace(s).len() == 0 {
            assert forall|i: int| 0 <= i < s.len() implies is_whitespace(#[trigger] s[i]) by {
                if i < s.len() - 1 {
                    assert(shorter[i] == s[i]);
                }
            }
        }
    }
}

/// Whether `c` is a whitespace character.
pub fn char_is_whitespace(c: char) -> (b: bool)
    ensures
        b == is_whitespace(c),
{
    let n: u32 = c as u32;
    (0x09 <= n && n <= 0x0D) || n == 0x20 || n == 0x85 || n == 0xA0 || n == 0x1680 || (0x2000 <= n
        && n <= 0x200A) || n == 0x2028 || n == 0x2029 || n == 0x202F || n == 0x205F || n == 0x3000
}

/// Drops every whitespace character from `s` and keeps the others in order.
pub fn remove_whitespace(s: &str) -> (out: String)
    ensures
        out@ == without_whitespace(s@),
{
    broadcast use vstd::string::group_string_axioms;

    let mut out = String::new();
    for c in it: s.chars()
        invariant
            it.seq() == s@,
            out@ == without_whitespace(s@.take(it.index())),
    {
        proof {
            let seen = s@.take(it.index());
            assert(s@.take(it.index() + 1) == seen.push(c));
            seen.lemma_filter_push(c, |c: char| !is_whitespace(c));
        }
        if !char_is_whitespace(c) {
            out.push(c);
        }
    }
    proof {
        assert(s@.take(s@.len() as int) == s@);
    }
    out
}

/// Whether `s` holds nothing but whitespace.
pub fn blank(s: &str) -> (b: bool)
    ensures
        b == is_blank(s@),
{
    proof {
        lemma_blank_leaves_nothing(s@);
    }
    remove_whitespace(s).as_str().is_empty()
}

/// Splits `s` at every single space. Nothing is trimmed or merged.
pub fn split_on_space(s: &str) -> (pieces: Vec<String>)
    ensures
        texts(pieces@) == split_spaces(s@),
{
    broadcast use vstd::string::group_string_axioms;

    let mut pieces: Vec<String> = Vec::new();
    let mut current = String::new();
    for c in it: s.chars()
        invariant
            it.seq() == s@,
            texts(pieces@).push(current@) == split_spaces(s@.take(it.index())),
    {
        proof {
            assert(s@.take(it.index() + 1).drop_last() == s@.take(it.index()));
        }
        if c == ' ' {
            pieces.push(current);
            current = String::new();
        } else {
            current.push(c);
        }
    }
    proof {
        assert(s@.take(s@.len() as int) == s@);
    }
    pieces.push(current);
    pieces
}

} // verus!
