//! The identifier grammar: an identifier is one of three lexical forms,
//! tried in order — a bare word, a numeral, or a quoted string with escaped
//! quotes. The distinction is erased after parsing; an identifier is plain
//! text.

use vstd::prelude::*;

use crate::error::{fail1, ErrorKind, Parsed, ParseFailure};
use crate::text::{chars_of, push_char, string_of};

verus! {

/// An alphabetic character.
pub open spec fn is_alpha_char(c: char) -> bool {
    ('a' <= c && c <= 'z') || ('A' <= c && c <= 'Z')
}

/// A character in the extended high-bit range (code points 128 through 255).
pub open spec fn is_high_bit_char(c: char) -> bool {
    128 <= (c as u32) && (c as u32) <= 255
}

/// A decimal digit.
pub open spec fn is_digit_char(c: char) -> bool {
    '0' <= c && c <= '9'
}

/// A character that may open a bare word: alphabetic, high-bit, or `_`.
pub open spec fn is_word_start_char(c: char) -> bool {
    is_alpha_char(c) || is_high_bit_char(c) || c == '_'
}

/// A character that may continue a bare word: a word-start character or a
/// digit.
pub open spec fn is_word_continue_char(c: char) -> bool {
    is_word_start_char(c) || is_digit_char(c)
}

/// Decide `is_word_start_char`.
pub(crate) fn word_start_char(c: char) -> (b: bool)
    ensures
        b == is_word_start_char(c),
{
    ('a' <= c && c <= 'z') || ('A' <= c && c <= 'Z') || (128 <= c as u32 && c as u32 <= 255) || c
        == '_'
}

/// Decide `is_word_continue_char`.
pub(crate) fn word_continue_char(c: char) -> (b: bool)
    ensures
        b == is_word_continue_char(c),
{
    word_start_char(c) || ('0' <= c && c <= '9')
}

/// The end of the run of word-continuation characters that starts at `pos`.
pub open spec fn spec_word_end(s: Seq<char>, pos: int) -> int
    decreases s.len() - pos,
{
    if 0 <= pos && pos < s.len() && is_word_continue_char(s[pos]) {
        spec_word_end(s, pos + 1)
    } else {
        pos
    }
}

/// The bare-word identifier rule: a word-start character followed by the
/// longest run of word-continuation characters. The token boundary is
/// implicit — the rule stops at the first non-word character.
pub open spec fn spec_bare_word(s: Seq<char>, pos: int) -> Parsed<Seq<char>> {
    if 0 <= pos && pos < s.len() && is_word_start_char(s[pos]) {
        let end = spec_word_end(s, pos + 1);
        Parsed::Found { end, val: s.subrange(pos, end) }
    } else {
        Parsed::Missing { at: pos }
    }
}

/// The end of the run of digits that starts at `pos`.
pub open spec fn spec_digits_end(s: Seq<char>, pos: int) -> int
    decreases s.len() - pos,
{
    if 0 <= pos && pos < s.len() && is_digit_char(s[pos]) {
        spec_digits_end(s, pos + 1)
    } else {
        pos
    }
}

/// The numeral identifier rule: an optional minus sign, one or more digits,
/// a mandatory decimal point, and zero or more trailing digits.
pub open spec fn spec_numeral(s: Seq<char>, pos: int) -> Parsed<Seq<char>> {
    if 0 <= pos {
        let p = if pos < s.len() && s[pos] == '-' {
            pos + 1
        } else {
            pos
        };
        let d = spec_digits_end(s, p);
        if d == p {
            Parsed::Missing { at: p }
        } else if d < s.len() && s[d] == '.' {
            let end = spec_digits_end(s, d + 1);
            Parsed::Found { end, val: s.subrange(pos, end) }
        } else {
            Parsed::Missing { at: d }
        }
    } else {
        Parsed::Missing { at: pos }
    }
}

/// The body of a quoted string, read from just after the opening quote: the
/// escape `\"` contributes one literal quote, any other character
/// contributes itself, and an unescaped `"` closes the string. Reaching the
/// end of the input before the closing quote is a failure — the string is
/// never closed implicitly.
pub open spec fn spec_quoted_body(s: Seq<char>, pos: int) -> Parsed<Seq<char>>
    decreases s.len() - pos,
{
    if pos < 0 || pos >= s.len() {
        Parsed::Missing { at: s.len() as int }
    } else if s[pos] == '"' {
        Parsed::Found { end: pos + 1, val: Seq::empty() }
    } else if s[pos] == '\\' && pos + 1 < s.len() && s[pos + 1] == '"' {
        match spec_quoted_body(s, pos + 2) {
            Parsed::Found { end, val } => Parsed::Found { end, val: seq!['"'] + val },
            Parsed::Missing { at } => Parsed::Missing { at },
        }
    } else {
        match spec_quoted_body(s, pos + 1) {
            Parsed::Found { end, val } => Parsed::Found { end, val: seq![s[pos]] + val },
            Parsed::Missing { at } => Parsed::Missing { at },
        }
    }
}

/// The quoted-string identifier rule: an opening quote, the escaped body,
/// and the closing quote.
pub open spec fn spec_quoted(s: Seq<char>, pos: int) -> Parsed<Seq<char>> {
    if 0 <= pos && pos < s.len() && s[pos] == '"' {
        spec_quoted_body(s, pos + 1)
    } else {
        Parsed::Missing { at: pos }
    }
}

/// The identifier rule: ordered choice among the bare-word, numeral and
/// quoted-string forms; the first form that matches wins, and a failure is
/// reported at the position the last alternative gave up.
pub open spec fn spec_ident(s: Seq<char>, pos: int) -> Parsed<Seq<char>> {
    match spec_bare_word(s, pos) {
        Parsed::Found { end, val } => Parsed::Found { end, val },
        Parsed::Missing { .. } => match spec_numeral(s, pos) {
            Parsed::Found { end, val } => Parsed::Found { end, val },
            Parsed::Missing { .. } => spec_quoted(s, pos),
        },
    }
}

/// Law: a text made entirely of word characters, opening with a word-start
/// character, is consumed whole by the identifier rule — its value is the
/// text itself and no remainder is left.
pub proof fn lemma_bare_word_consumes_all(s: Seq<char>)
    requires
        s.len() > 0,
        is_word_start_char(s[0]),
        forall|i: int| 0 <= i < s.len() ==> is_word_continue_char(#[trigger] s[i]),
    ensures
        spec_ident(s, 0) == (Parsed::Found { end: s.len() as int, val: s }),
{
    lemma_word_run_end(s, 1);
    assert(s.subrange(0, s.len() as int) =~= s);
}

/// In a text whose characters are all word-continuation characters, the word
/// run reaches the end of the text.
proof fn lemma_word_run_end(s: Seq<char>, pos: int)
    requires
        0 <= pos <= s.len(),
        forall|i: int| 0 <= i < s.len() ==> is_word_continue_char(#[trigger] s[i]),
    ensures
        spec_word_end(s, pos) == s.len(),
    decreases s.len() - pos,
{
    if pos < s.len() {
        lemma_word_run_end(s, pos + 1);
    }
}

/// Read a bare-word identifier at `pos`.
pub(crate) fn bare_word_at(s: &Vec<char>, pos: usize) -> (r: Result<
    (usize, String),
    ParseFailure,
>)
    requires
        pos <= s@.len(),
    ensures
        match r {
            Ok((end, v)) => (spec_bare_word(s@, pos as int) == Parsed::Found {
                end: end as int,
                val: v@,
            }) && pos < end <= s@.len(),
            Err(f) => (spec_bare_word(s@, pos as int) == Parsed::<Seq<char>>::Missing {
                at: f.at as int,
            }) && f.wf(s@.len() as int),
        },
{
    if pos < s.len() && word_start_char(s[pos]) {
        let mut i = pos + 1;
        while i < s.len() && word_continue_char(s[i])
            invariant
                pos < i <= s@.len(),
                spec_word_end(s@, pos + 1) == spec_word_end(s@, i as int),
            decreases s@.len() - i,
        {
            i = i + 1;
        }
        let v = string_of(s, pos, i);
        Ok((i, v))
    } else {
        let f = fail1(pos, ErrorKind::Alpha).note(pos, ErrorKind::HighBit).note(
            pos,
            ErrorKind::Tag,
        );
        Err(f)
    }
}

/// Decide `is_digit_char`.
pub(crate) fn digit_char(c: char) -> (b: bool)
    ensures
        b == is_digit_char(c),
{
    '0' <= c && c <= '9'
}

/// Scan the run of digits starting at `pos`.
pub(crate) fn digits_end(s: &Vec<char>, pos: usize) -> (r: usize)
    requires
        pos <= s@.len(),
    ensures
        r as int == spec_digits_end(s@, pos as int),
        pos <= r <= s@.len(),
{
    let mut i = pos;
    while i < s.len() && digit_char(s[i])
        invariant
            pos <= i <= s@.len(),
            spec_digits_end(s@, pos as int) == spec_digits_end(s@, i as int),
        decreases s@.len() - i,
    {
        i = i + 1;
    }
    i
}

/// Read a numeral identifier at `pos`.
pub(crate) fn numeral_at(s: &Vec<char>, pos: usize) -> (r: Result<(usize, String), ParseFailure>)
    requires
        pos <= s@.len(),
    ensures
        match r {
            Ok((end, v)) => (spec_numeral(s@, pos as int) == Parsed::Found {
                end: end as int,
                val: v@,
            }) && pos < end <= s@.len(),
            Err(f) => (spec_numeral(s@, pos as int) == Parsed::<Seq<char>>::Missing {
                at: f.at as int,
            }) && f.wf(s@.len() as int),
        },
{
    let p = if pos < s.len() && s[pos] == '-' {
        pos + 1
    } else {
        pos
    };
    let d = digits_end(s, p);
    if d == p {
        Err(fail1(p, ErrorKind::Digit).note(pos, ErrorKind::Numeral))
    } else if d < s.len() && s[d] == '.' {
        let end = digits_end(s, d + 1);
        let v = string_of(s, pos, end);
        Ok((end, v))
    } else {
        Err(fail1(d, ErrorKind::Tag).note(pos, ErrorKind::Numeral))
    }
}

/// Read a quoted-string identifier at `pos`, un-escaping `\"` to `"`.
pub(crate) fn quoted_at(s: &Vec<char>, pos: usize) -> (r: Result<(usize, String), ParseFailure>)
    requires
        pos <= s@.len(),
    ensures
        match r {
            Ok((end, v)) => (spec_quoted(s@, pos as int) == Parsed::Found {
                end: end as int,
                val: v@,
            }) && pos < end <= s@.len(),
            Err(f) => (spec_quoted(s@, pos as int) == Parsed::<Seq<char>>::Missing {
                at: f.at as int,
            }) && f.wf(s@.len() as int),
        },
{
    if pos < s.len() && s[pos] == '"' {
        let mut i = pos + 1;
        let mut out = String::new();
        proof {
            assert(out@ + Seq::<char>::empty() =~= out@);
        }
        loop
            invariant
                pos + 1 <= i <= s@.len(),
                pos < s@.len(),
                s@[pos as int] == '"',
                match spec_quoted_body(s@, i as int) {
                    Parsed::Found { end, val } => spec_quoted_body(s@, pos + 1)
                        == (Parsed::Found { end, val: out@ + val }),
                    Parsed::Missing { at } => spec_quoted_body(s@, pos + 1)
                        == (Parsed::<Seq<char>>::Missing { at }),
                },
            decreases s@.len() - i,
        {
            if i >= s.len() {
                let f = fail1(s.len(), ErrorKind::Char).note(pos, ErrorKind::QuotedString);
                return Err(f);
            }
            let c = s[i];
            if c == '"' {
                proof {
                    assert(out@ + Seq::<char>::empty() =~= out@);
                }
                return Ok((i + 1, out));
            } else if c == '\\' && i + 1 < s.len() && s[i + 1] == '"' {
                let ghost prev = out@;
                push_char(&mut out, '"');
                i = i + 2;
                proof {
                    if let Parsed::Found { end, val } = spec_quoted_body(s@, i as int) {
                        assert(prev + (seq!['"'] + val) =~= out@ + val);
                    }
                }
            } else {
                let ghost prev = out@;
                push_char(&mut out, c);
                i = i + 1;
                proof {
                    if let Parsed::Found { end, val } = spec_quoted_body(s@, i as int) {
                        assert(prev + (seq![s@[i - 1]] + val) =~= out@ + val);
                    }
                }
            }
        }
    } else {
        Err(fail1(pos, ErrorKind::Char).note(pos, ErrorKind::QuotedString))
    }
}

/// Read an identifier at `pos`: ordered choice among the three forms.
pub(crate) fn ident_at(s: &Vec<char>, pos: usize) -> (r: Result<(usize, String), ParseFailure>)
    requires
        pos <= s@.len(),
    ensures
        match r {
            Ok((end, v)) => (spec_ident(s@, pos as int) == Parsed::Found {
                end: end as int,
                val: v@,
            }) && pos < end <= s@.len(),
            Err(f) => (spec_ident(s@, pos as int) == Parsed::<Seq<char>>::Missing {
                at: f.at as int,
            }) && f.wf(s@.len() as int),
        },
{
    match bare_word_at(s, pos) {
        Ok(x) => Ok(x),
        Err(f1) => match numeral_at(s, pos) {
            Ok(x) => Ok(x),
            Err(f2) => match quoted_at(s, pos) {
                Ok(x) => Ok(x),
                Err(f3) => Err(f1.chain(f2).chain(f3).note(pos, ErrorKind::Ident)),
            },
        },
    }
}

/// Parse a bare-word identifier at the start of the input; on success the
/// unconsumed remainder is returned beside the identifier.
pub fn string_ident_parser(input: &str) -> (r: Result<(String, String), ParseFailure>)
    ensures
        match r {
            Ok((rest, v)) => (spec_bare_word(input@, 0) matches Parsed::Found { end, val }
                && val == v@ && rest@ == input@.subrange(end, input@.len() as int)),
            Err(f) => (spec_bare_word(input@, 0) matches Parsed::Missing { at }
                && at == f.at as int) && f.wf(input@.len() as int),
        },
{
    let cs = chars_of(input);
    match bare_word_at(&cs, 0) {
        Ok((end, v)) => {
            let rest = string_of(&cs, end, cs.len());
            Ok((rest, v))
        },
        Err(f) => Err(f),
    }
}

/// Parse a numeral identifier at the start of the input.
pub fn num_ident_parser(input: &str) -> (r: Result<(String, String), ParseFailure>)
    ensures
        match r {
            Ok((rest, v)) => (spec_numeral(input@, 0) matches Parsed::Found { end, val }
                && val == v@ && rest@ == input@.subrange(end, input@.len() as int)),
            Err(f) => (spec_numeral(input@, 0) matches Parsed::Missing { at }
                && at == f.at as int) && f.wf(input@.len() as int),
        },
{
    let cs = chars_of(input);
    match numeral_at(&cs, 0) {
        Ok((end, v)) => {
            let rest = string_of(&cs, end, cs.len());
            Ok((rest, v))
        },
        Err(f) => Err(f),
    }
}

/// Parse a quoted-string identifier at the start of the input.
pub fn quote_string_ident_parser(input: &str) -> (r: Result<(String, String), ParseFailure>)
    ensures
        match r {
            Ok((rest, v)) => (spec_quoted(input@, 0) matches Parsed::Found { end, val }
                && val == v@ && rest@ == input@.subrange(end, input@.len() as int)),
            Err(f) => (spec_quoted(input@, 0) matches Parsed::Missing { at } && at == f.at as int)
                && f.wf(input@.len() as int),
        },
{
    let cs = chars_of(input);
    match quoted_at(&cs, 0) {
        Ok((end, v)) => {
            let rest = string_of(&cs, end, cs.len());
            Ok((rest, v))
        },
        Err(f) => Err(f),
    }
}

/// Parse an identifier of any of the three forms at the start of the input.
pub fn ident_parser(input: &str) -> (r: Result<(String, String), ParseFailure>)
    ensures
        match r {
            Ok((rest, v)) => (spec_ident(input@, 0) matches Parsed::Found { end, val }
                && val == v@ && rest@ == input@.subrange(end, input@.len() as int)),
            Err(f) => (spec_ident(input@, 0) matches Parsed::Missing { at } && at == f.at as int)
                && f.wf(input@.len() as int),
        },
{
    let cs = chars_of(input);
    match ident_at(&cs, 0) {
        Ok((end, v)) => {
            let rest = string_of(&cs, end, cs.len());
            Ok((rest, v))
        },
        Err(f) => Err(f),
    }
}

} // verus!
