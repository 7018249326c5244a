//! Character-level utilities: turning input text into a character vector,
//! building result strings, and matching literal tokens.

use vstd::prelude::*;
use vstd::std_specs::iter::IteratorSpec;

verus! {

/// Relies on String::push: appends the given character to the end of the string.
#[verifier::external_body]
pub(crate) fn push_char(s: &mut String, c: char)
    ensures
        final(s)@ == old(s)@.push(c),
{
    s.push(c);
}

/// Collect the characters of a text into a vector, in order.
pub fn chars_of(s: &str) -> (r: Vec<char>)
    ensures
        r@ == s@,
{
    let n = s.unicode_len();
    let mut v: Vec<char> = Vec::new();
    proof {
        assert(v@ =~= s@.subrange(0, 0));
    }
    let mut i: usize = 0;
    while i < n
        invariant
            n == s@.len(),
            i <= n,
            v@ == s@.subrange(0, i as int),
        decreases n - i,
    {
        let c = s.get_char(i);
        v.push(c);
        proof {
            assert(s@.subrange(0, i as int).push(s@[i as int]) =~= s@.subrange(0, i + 1));
        }
        i = i + 1;
    }
    proof {
        assert(s@.subrange(0, n as int) =~= s@);
    }
    v
}

/// Build a string out of the characters `s[from..to]`.
pub(crate) fn string_of(s: &Vec<char>, from: usize, to: usize) -> (r: String)
    requires
        from <= to <= s@.len(),
    ensures
        r@ == s@.subrange(from as int, to as int),
{
    let mut r = String::new();
    proof {
        assert(r@ =~= s@.subrange(from as int, from as int));
    }
    let mut i = from;
    while i < to
        invariant
            from <= i <= to <= s@.len(),
            r@ == s@.subrange(from as int, i as int),
        decreases to - i,
    {
        push_char(&mut r, s[i]);
        proof {
            assert(s@.subrange(from as int, i as int).push(s@[i as int]) =~= s@.subrange(
                from as int,
                i + 1,
            ));
        }
        i = i + 1;
    }
    r
}

/// The token `tok` occurs literally in `s` at position `pos`.
pub open spec fn tag_matches(s: Seq<char>, pos: int, tok: Seq<char>) -> bool {
    &&& pos + tok.len() <= s.len()
    &&& s.subrange(pos, pos + tok.len() as int) == tok
}

/// Decide whether the literal token `tok` occurs in `s` at position `pos`.
pub(crate) fn match_tag(s: &Vec<char>, pos: usize, tok: &str) -> (b: bool)
    requires
        pos <= s@.len(),
    ensures
        b == tag_matches(s@, pos as int, tok@),
{
    let tv = chars_of(tok);
    let n = tv.len();
    let sl = s.len();
    if n > sl - pos {
        return false;
    }
    let mut i: usize = 0;
    while i < n
        invariant
            0 <= i <= n,
            n == tok@.len(),
            tv@ == tok@,
            pos + n <= sl,
            sl == s@.len(),
            forall|j: int| 0 <= j < i ==> s@[pos + j] == tok@[j],
        decreases n - i,
    {
        if s[pos + i] != tv[i] {
            proof {
                let sub = s@.subrange(pos as int, pos as int + tok@.len() as int);
                assert(sub[i as int] == s@[pos + i]);
            }
            return false;
        }
        i = i + 1;
    }
    proof {
        assert(s@.subrange(pos as int, pos as int + tok@.len() as int) =~= tok@);
    }
    true
}

} // verus!
