//! The lexical whitespace rule: every token-level rule skips insignificant
//! whitespace around the token through these helpers.

use vstd::prelude::*;

verus! {

/// Insignificant whitespace: space, tab, carriage return, line feed.
pub open spec fn is_space_char(c: char) -> bool {
    c == ' ' || c == '\t' || c == '\n' || c == '\r'
}

/// Decide `is_space_char`.
pub(crate) fn space_char(c: char) -> (b: bool)
    ensures
        b == is_space_char(c),
{
    c == ' ' || c == '\t' || c == '\n' || c == '\r'
}

/// The first position at or after `pos` holding a non-whitespace character
/// (or the end of the input).
pub open spec fn spec_skip_space(s: Seq<char>, pos: int) -> int
    decreases s.len() - pos,
{
    if 0 <= pos && pos < s.len() && is_space_char(s[pos]) {
        spec_skip_space(s, pos + 1)
    } else {
        pos
    }
}

/// Skip insignificant whitespace starting at `pos`.
pub(crate) fn skip_space(s: &Vec<char>, pos: usize) -> (r: usize)
    requires
        pos <= s@.len(),
    ensures
        r as int == spec_skip_space(s@, pos as int),
        pos <= r <= s@.len(),
{
    let mut i = pos;
    while i < s.len() && space_char(s[i])
        invariant
            pos <= i <= s@.len(),
            spec_skip_space(s@, pos as int) == spec_skip_space(s@, i as int),
        decreases s@.len() - i,
    {
        i = i + 1;
    }
    i
}

} // verus!
