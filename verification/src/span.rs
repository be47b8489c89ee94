//! Source locations: a half-open byte range within one source unit.

use vstd::prelude::*;

verus! {

/// A source location, kept as a half-open byte range.  Locations serve only
/// as diagnostic anchors; resolution logic never reads them.
#[derive(Clone, Copy, Debug, PartialEq, Eq, Structural)]
pub struct Span {
    pub start: usize,
    pub end: usize,
}

impl Span {
    /// The smallest range covering both `self` and `other`.
    pub fn join(self, other: Span) -> (r: Span)
        ensures
            r == spec_join(self, other),
    {
        Span {
            start: if self.start <= other.start {
                self.start
            } else {
                other.start
            },
            end: if self.end >= other.end {
                self.end
            } else {
                other.end
            },
        }
    }

    /// A synthetic zero-length location, used when a diagnostic must be
    /// raised at a point where no caller-supplied location exists.
    pub fn synthetic() -> (r: Span)
        ensures
            r == (Span { start: 0, end: 0 }),
    {
        Span { start: 0, end: 0 }
    }
}

/// What `Span::join` returns: the smallest range covering both arguments.
pub open spec fn spec_join(a: Span, b: Span) -> Span {
    Span {
        start: if a.start <= b.start {
            a.start
        } else {
            b.start
        },
        end: if a.end >= b.end {
            a.end
        } else {
            b.end
        },
    }
}

} // verus!
