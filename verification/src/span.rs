//! Source locations and half-open ranges of locations.

use crate::text::{decimal, usize_to_decimal};
use vstd::prelude::*;
use vstd::string::*;

verus! {

/// A location in the source text.
///
/// Lines and columns are counted from one; a marker whose line or column is
/// zero stands for "no location".
#[derive(Clone, Copy, Debug, PartialEq, Eq, Structural)]
pub struct Marker {
    /// Offset in bytes from the start of the source text.
    pub index: usize,
    /// Line number, counted from one.
    pub line: usize,
    /// Column number, counted from one.
    pub column: usize,
}

impl Marker {
    /// Creates a location from its three coordinates.
    pub fn new(index: usize, line: usize, column: usize) -> (m: Marker)
        ensures
            m == (Marker { index, line, column }),
    {
        Marker { index, line, column }
    }

    /// The location of the first byte of a source text.
    pub fn start() -> (m: Marker)
        ensures
            m == (Marker { index: 0, line: 1, column: 1 }),
            m.is_set(),
    {
        Marker { index: 0, line: 1, column: 1 }
    }

    /// The unset location.
    pub fn zero() -> (m: Marker)
        ensures
            m == (Marker { index: 0, line: 0, column: 0 }),
            !m.is_set(),
    {
        Marker { index: 0, line: 0, column: 0 }
    }

    /// A marker is set when both its line and its column are positive.
    pub open spec fn is_set(&self) -> bool {
        self.line > 0 && self.column > 0
    }

    /// The marker as messages write it: the line, a colon and the column.
    pub open spec fn spec_text(&self) -> Seq<char> {
        decimal(self.line as nat) + ":"@ + decimal(self.column as nat)
    }

    /// Writes the marker as messages write it.
    pub fn to_string(&self) -> (r: String)
        ensures
            r@ == self.spec_text(),
    {
        let mut s = usize_to_decimal(self.line);
        s.append(":");
        s.append(usize_to_decimal(self.column).as_str());
        s
    }

    /// Markers are ordered by their byte offset alone.
    pub open spec fn spec_precedes(&self, other: &Marker) -> bool {
        self.index <= other.index
    }

    /// True if this marker does not lie after `other` in the source text.
    pub fn precedes(&self, other: &Marker) -> (b: bool)
        ensures
            b == self.spec_precedes(other),
    {
        self.index <= other.index
    }
}

impl Default for Marker {
    fn default() -> (m: Marker)
        ensures
            m == (Marker { index: 0, line: 0, column: 0 }),
    {
        Marker::zero()
    }
}

/// A half-open range of source locations.
#[derive(Clone, Copy, Debug, PartialEq, Eq, Structural)]
pub struct Span {
    /// Where the range starts.
    pub start: Marker,
    /// Where the range ends (exclusive).
    pub end: Marker,
}

impl Span {
    /// Creates the range from `start` to `end`.
    pub fn new(start: Marker, end: Marker) -> (s: Span)
        ensures
            s == (Span { start, end }),
    {
        Span { start, end }
    }

    /// A span is valid when it does not end before it starts and both of its
    /// markers are set.
    pub open spec fn spec_is_valid(&self) -> bool {
        &&& self.start.index <= self.end.index
        &&& self.start.is_set()
        &&& self.end.is_set()
    }

    /// True if this span is valid.
    pub fn is_valid(&self) -> (b: bool)
        ensures
            b == self.spec_is_valid(),
    {
        self.start.index <= self.end.index && self.start.line > 0 && self.start.column > 0
            && self.end.line > 0 && self.end.column > 0
    }

    /// The span as messages write it: its two markers with two dots
    /// between them.
    pub open spec fn spec_text(&self) -> Seq<char> {
        self.start.spec_text() + ".."@ + self.end.spec_text()
    }

    /// Writes the span as messages write it.
    pub fn to_string(&self) -> (r: String)
        ensures
            r@ == self.spec_text(),
    {
        let mut s = self.start.to_string();
        s.append("..");
        s.append(self.end.to_string().as_str());
        s
    }

    /// The empty, invalid span.
    pub fn zero() -> (s: Span)
        ensures
            s == Span::spec_zero(),
            !s.spec_is_valid(),
    {
        Span { start: Marker::zero(), end: Marker::zero() }
    }

    /// The value of [`Span::zero`].
    pub open spec fn spec_zero() -> Span {
        Span {
            start: Marker { index: 0, line: 0, column: 0 },
            end: Marker { index: 0, line: 0, column: 0 },
        }
    }

    /// The span between two recorded positions, where a position that was
    /// never recorded counts as the unset marker.
    pub open spec fn spec_between(start: Option<Marker>, end: Option<Marker>) -> Span {
        Span {
            start: match start {
                Some(m) => m,
                None => Marker { index: 0, line: 0, column: 0 },
            },
            end: match end {
                Some(m) => m,
                None => Marker { index: 0, line: 0, column: 0 },
            },
        }
    }

    /// Builds the span between two recorded positions.
    pub fn between(start: Option<Marker>, end: Option<Marker>) -> (s: Span)
        ensures
            s == Span::spec_between(start, end),
    {
        let a = match start {
            Some(m) => m,
            None => Marker::zero(),
        };
        let b = match end {
            Some(m) => m,
            None => Marker::zero(),
        };
        Span { start: a, end: b }
    }

    /// The number of bytes that the span covers: none if it ends before it
    /// starts.
    pub open spec fn spec_len(&self) -> int {
        if self.start.index <= self.end.index {
            self.end.index - self.start.index
        } else {
            0
        }
    }

    /// The number of bytes that the span covers.
    pub fn len(&self) -> (n: usize)
        ensures
            n == self.spec_len(),
    {
        if self.start.index <= self.end.index {
            self.end.index - self.start.index
        } else {
            0
        }
    }
}

impl Default for Span {
    fn default() -> (s: Span)
        ensures
            s == Span::spec_zero(),
    {
        Span::zero()
    }
}

} // verus!
