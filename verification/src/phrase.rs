//! The authorization-phrase gate of the checkout shell.
//!
//! The dashboard unlocks its secure bridge only for a phrase of exactly
//! twelve whitespace-separated words. A word is a maximal run of
//! non-whitespace characters; whitespace is the Unicode `White_Space` set,
//! the same set the standard library's whitespace splitting goes by.

use vstd::prelude::*;
use vstd::string::StrSliceExecFns;

verus! {

/// A character of the Unicode `White_Space` set.
pub open spec fn is_space(c: char) -> bool {
    let u = c as int;
    ||| (9 <= u && u <= 13)
    ||| u == 32
    ||| u == 0x85
    ||| u == 0xa0
    ||| u == 0x1680
    ||| (0x2000 <= u && u <= 0x200a)
    ||| u == 0x2028
    ||| u == 0x2029
    ||| u == 0x202f
    ||| u == 0x205f
    ||| u == 0x3000
}

/// The number of words that start inside `s`, given whether a word was
/// already open just before it.
pub open spec fn word_count_suffix(s: Seq<char>, in_word: bool) -> int
    decreases s.len(),
{
    if s.len() == 0 {
        0
    } else {
        let starts_word = !is_space(s[0]) && !in_word;
        (if starts_word {
            1int
        } else {
            0int
        }) + word_count_suffix(s.drop_first(), !is_space(s[0]))
    }
}

/// The number of whitespace-separated words of a string.
pub open spec fn word_count(s: Seq<char>) -> int {
    word_count_suffix(s, false)
}

/// Whether a character belongs to the Unicode `White_Space` set.
pub fn is_space_char(c: char) -> (r: bool)
    ensures
        r == is_space(c),
{
    let u = c as u32;
    (9 <= u && u <= 13) || u == 32 || u == 0x85 || u == 0xa0 || u == 0x1680 || (0x2000 <= u && u
        <= 0x200a) || u == 0x2028 || u == 0x2029 || u == 0x202f || u == 0x205f || u == 0x3000
}

/// Counts the whitespace-separated words of the authorization phrase.
pub fn authorization_word_count(s: &str) -> (r: usize)
    ensures
        r == word_count(s@),
{
    let n = s.unicode_len();
    let mut count: usize = 0;
    let mut in_word = false;
    let mut i: usize = 0;
    proof {
        assert(s@.skip(0) =~= s@);
    }
    while i < n
        invariant
            n == s@.len(),
            i <= n,
            count <= i,
            word_count(s@) == count + word_count_suffix(s@.skip(i as int), in_word),
        decreases n - i,
    {
        let c = s.get_char(i);
        let sp = is_space_char(c);
        proof {
            assert(s@.skip(i as int)[0] == s@[i as int]);
            assert(s@.skip(i as int).drop_first() =~= s@.skip(i + 1));
        }
        if !sp && !in_word {
            count = count + 1;
        }
        in_word = !sp;
        i = i + 1;
    }
    proof {
        assert(s@.skip(n as int) =~= Seq::<char>::empty());
    }
    count
}

/// Whether the phrase opens the secure bridge: exactly twelve words.
pub fn phrase_unlocks(s: &str) -> (r: bool)
    ensures
        r == (word_count(s@) == 12),
{
    authorization_word_count(s) == 12
}

} // verus!
