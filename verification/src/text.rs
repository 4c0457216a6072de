//! White space and trimming, over the characters of a text.

use vstd::prelude::*;

verus! {

/// Whether `c` is a white space character: one of the code points that carry
/// the Unicode property `White_Space`.
pub open spec fn white_space(c: char) -> bool {
    ||| '\u{9}' <= c <= '\u{d}'
    ||| c == ' '
    ||| c == '\u{85}'
    ||| c == '\u{a0}'
    ||| c == '\u{1680}'
    ||| '\u{2000}' <= c <= '\u{200a}'
    ||| c == '\u{2028}'
    ||| c == '\u{2029}'
    ||| c == '\u{202f}'
    ||| c == '\u{205f}'
    ||| c == '\u{3000}'
}

/// `s` without the white space at its end: the longest prefix of `s` that is
/// empty or ends in a character that is no white space.
pub open spec fn trimmed(s: Seq<char>) -> Seq<char>
    decreases s.len(),
{
    if s.len() > 0 && white_space(s.last()) {
        trimmed(s.drop_last())
    } else {
        s
    }
}

/// Tells whether `c` is a white space character.
pub fn is_white_space(c: char) -> (b: bool)
    ensures
        b == white_space(c),
{
    ('\u{9}' <= c && c <= '\u{d}') || c == ' ' || c == '\u{85}' || c == '\u{a0}' || c == '\u{1680}'
        || ('\u{2000}' <= c && c <= '\u{200a}') || c == '\u{2028}' || c == '\u{2029}' || c
        == '\u{202f}' || c == '\u{205f}' || c == '\u{3000}'
}

/// Cuts the white space off the end of `s`.
pub fn trim_end(s: &str) -> (t: &str)
    ensures
        t@ == trimmed(s@),
{
    // The length bounds the count of the characters seen, which thus fits.
    let len = s.unicode_len();
    let mut seen: usize = 0;
    // Where the text ends that was seen so far, its trailing white space cut.
    let mut end: usize = 0;
    assert(s@.take(0) =~= Seq::<char>::empty());
    for c in it: s.chars()
        invariant
            len == s@.len(),
            it.seq() == s@,
            seen == it.index(),
            end <= seen,
            trimmed(s@.take(seen as int)) == s@.take(end as int),
    {
        assert(s@.take(seen + 1).drop_last() =~= s@.take(seen as int));
        seen += 1;
        if !is_white_space(c) {
            end = seen;
        }
    }
    assert(s@.take(seen as int) =~= s@);
    s.substring_char(0, end)
}

} // verus!
