//! Word counting, delegated to the `words_count` crate.

use vstd::prelude::*;

verus! {

/// The number of words in a text under `words_count`'s tokenization:
/// roughly, maximal runs of non-whitespace characters, with runs of
/// dashes also acting as delimiters and each CJK character counted as a
/// word of its own.  The result depends on the characters alone.
pub uninterp spec fn word_count_of(s: Seq<char>) -> nat;

/// Relies on `words_count::count`: the `words` field of the returned
/// tally is a pure function of the input text, and an empty text has
/// zero words.
#[verifier::external_body]
fn count_words_in(s: &str) -> (r: usize)
    ensures
        r as nat == word_count_of(s@),
        s@.len() == 0 ==> r == 0,
{
    words_count::count(s).words
}

/// The number of words in the given text.
pub fn count_words(s: &str) -> (r: usize)
    ensures
        r as nat == word_count_of(s@),
        s@.len() == 0 ==> r == 0,
{
    count_words_in(s)
}

} // verus!
