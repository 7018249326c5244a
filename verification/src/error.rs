//! Failure reporting for the grammar engine: the outcome model that the
//! specifications use, and the diagnostic trace carried by a failed rule.

use vstd::prelude::*;

verus! {

/// The outcome of one grammar rule, at the specification level: either a
/// value together with the position just past the consumed text, or the
/// position at which the rule gave up.
pub ghost enum Parsed<T> {
    Found { end: int, val: T },
    Missing { at: int },
}

/// What a failed rule was looking for when it gave up.
#[derive(Debug, Clone, Copy, PartialEq, Eq)]
pub enum ErrorKind {
    Alpha,
    HighBit,
    Tag,
    Digit,
    Char,
    Ident,
    Numeral,
    QuotedString,
    Styles,
    Shapes,
    Attribute,
    AttributeList,
    EdgeOp,
    Statement,
    GraphKeyword,
    Brace,
}

/// One attempted rule: the input position at which it was tried and what it
/// was looking for.
#[derive(Debug, Clone, Copy, PartialEq, Eq)]
pub struct TraceEntry {
    pub pos: usize,
    pub kind: ErrorKind,
}

/// A failed parse: the position at which the decisive rule gave up, and the
/// ordered chain of every alternative that was attempted, innermost first.
#[derive(Debug, Clone, PartialEq)]
pub struct ParseFailure {
    pub at: usize,
    pub entries: Vec<TraceEntry>,
}

impl ParseFailure {
    /// The trace is well formed for an input of `n` characters: it is not
    /// empty and every recorded position lies within the input.
    pub open spec fn wf(self, n: int) -> bool {
        &&& self.at <= n
        &&& self.entries@.len() >= 1
        &&& forall|i: int|
            0 <= i < self.entries@.len() ==> (#[trigger] self.entries@[i]).pos <= n
    }

    /// Record one more attempted rule on the way out; the decisive position
    /// is kept.
    pub(crate) fn note(self, pos: usize, kind: ErrorKind) -> (f: ParseFailure)
        ensures
            f.at == self.at,
            f.entries@ == self.entries@.push(TraceEntry { pos, kind }),
    {
        let mut e = self.entries;
        e.push(TraceEntry { pos, kind });
        ParseFailure { at: self.at, entries: e }
    }

    /// Join the trace of a failed alternative with the trace of the
    /// alternative tried after it; the later one is decisive.
    pub(crate) fn chain(self, other: ParseFailure) -> (f: ParseFailure)
        ensures
            f.at == other.at,
            f.entries@ == self.entries@ + other.entries@,
    {
        let mut e = self.entries;
        let mut o = other.entries;
        e.append(&mut o);
        ParseFailure { at: other.at, entries: e }
    }
}

/// A fresh failure: one attempted rule at one position.
pub(crate) fn fail1(at: usize, kind: ErrorKind) -> (f: ParseFailure)
    ensures
        f.at == at,
        f.entries@.len() == 1,
        f.entries@[0] == (TraceEntry { pos: at, kind }),
{
    let mut e: Vec<TraceEntry> = Vec::new();
    e.push(TraceEntry { pos: at, kind });
    ParseFailure { at, entries: e }
}

} // verus!
