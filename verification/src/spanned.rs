//! The position that a parse is at, and values that remember where in the
//! source they came from.

use crate::span::{Marker, Span};
use vstd::prelude::*;
use vstd::std_specs::cmp::PartialEqSpec;

verus! {

/// The position that a parse or decode operation is at. One operation owns
/// one `Position` and hands it to every step, so that a step can stamp what
/// it produced with the span of source text that it consumed.
#[derive(Debug)]
pub struct Position {
    /// The latest position that the event source announced.
    pub marker: Option<Marker>,
    /// The name of the file that is being read, if that is known.
    pub filename: Option<String>,
}

/// The model of a [`Position`].
pub ghost struct PositionView {
    pub marker: Option<Marker>,
    pub filename: Option<Seq<char>>,
}

/// The model of an optional text.
pub open spec fn text_view(t: Option<String>) -> Option<Seq<char>> {
    match t {
        Some(s) => Some(s@),
        None => None,
    }
}

impl View for Position {
    type V = PositionView;

    open spec fn view(&self) -> PositionView {
        PositionView { marker: self.marker, filename: text_view(self.filename) }
    }
}

impl Position {
    /// A position at which nothing has been announced yet.
    pub fn new() -> (p: Position)
        ensures
            p@ == (PositionView { marker: None, filename: None }),
    {
        Position { marker: None, filename: None }
    }
}

/// Records `marker` as the latest known position.
pub fn set_marker(position: &mut Position, marker: Marker)
    ensures
        final(position)@ == (PositionView { marker: Some(marker), ..old(position)@ }),
{
    position.marker = Some(marker);
}

/// Forgets the latest known position.
pub fn reset_marker(position: &mut Position)
    ensures
        final(position)@ == (PositionView { marker: None, ..old(position)@ }),
{
    position.marker = None;
}

/// The latest known position, if one was recorded since the last reset.
pub fn get_marker(position: &Position) -> (m: Option<Marker>)
    ensures
        m == position@.marker,
{
    position.marker
}

/// Records the name of the file that is being read.
pub fn set_filename(position: &mut Position, filename: String)
    ensures
        final(position)@ == (PositionView { filename: Some(filename@), ..old(position)@ }),
{
    position.filename = Some(filename);
}

/// The name of the file that is being read, if one was recorded.
pub fn get_filename(position: &Position) -> (r: Option<String>)
    ensures
        text_view(r) == position@.filename,
{
    match &position.filename {
        Some(name) => Some(name.clone()),
        None => None,
    }
}

/// What [`with_filename`] hands out: the file name that was current before,
/// to be put back with [`WithFilenameScope::restore`].
#[derive(Debug)]
pub struct WithFilenameScope {
    /// The file name that was current when the scope was entered.
    pub previous: Option<String>,
}

/// Makes `filename` the current file name and returns a scope that holds the
/// name that was current before.
pub fn with_filename(position: &mut Position, filename: Option<String>) -> (scope:
    WithFilenameScope)
    ensures
        final(position)@ == (PositionView { filename: text_view(filename), ..old(position)@ }),
        text_view(scope.previous) == old(position)@.filename,
{
    let mut previous = filename;
    core::mem::swap(&mut position.filename, &mut previous);
    WithFilenameScope { previous }
}

impl WithFilenameScope {
    /// Leaves the scope: the file name that was current when it was entered
    /// is current again.
    pub fn restore(self, position: &mut Position)
        ensures
            final(position)@ == (PositionView {
                filename: text_view(self.previous),
                ..old(position)@
            }),
    {
        position.filename = self.previous;
    }
}

/// A value together with the span of source text that it was decoded from.
#[derive(Debug)]
pub struct Spanned<T> {
    /// The span of source text.
    pub span: Span,
    /// The value.
    pub node: T,
}

impl<T> Spanned<T> {
    /// Wraps a value that did not come from a source text: its span is the
    /// zero span.
    pub fn new(node: T) -> (s: Spanned<T>)
        ensures
            s.node == node,
            s.span == Span::spec_zero(),
    {
        Spanned { span: Span::zero(), node }
    }

    /// Wraps a value with the span that it was decoded from.
    pub fn with_span(node: T, span: Span) -> (s: Spanned<T>)
        ensures
            s.node == node,
            s.span == span,
    {
        Spanned { span, node }
    }

    /// Applies `f` to the value and keeps the span.
    pub fn map<U, F: FnOnce(T) -> U>(self, f: F) -> (r: Spanned<U>)
        requires
            f.requires((self.node,)),
        ensures
            r.span == self.span,
            f.ensures((self.node,), r.node),
    {
        Spanned { span: self.span, node: f(self.node) }
    }

    /// Unwraps the value.
    pub fn into_inner(self) -> (node: T)
        ensures
            node == self.node,
    {
        self.node
    }

    /// The value.
    pub fn as_ref(&self) -> (node: &T)
        ensures
            *node == self.node,
    {
        &self.node
    }

    /// The span that was captured.
    pub fn span(&self) -> (s: &Span)
        ensures
            *s == self.span,
    {
        &self.span
    }

    /// True if the span that was captured is valid.
    pub fn has_valid_span(&self) -> (b: bool)
        ensures
            b == self.span.spec_is_valid(),
    {
        self.span.is_valid()
    }
}


impl<T: Clone> Clone for Spanned<T> {
    fn clone(&self) -> (r: Spanned<T>)
        ensures
            r.span == self.span,
            cloned(self.node, r.node),
    {
        Spanned { span: self.span, node: self.node.clone() }
    }
}

impl<T: PartialEq> PartialEq for Spanned<T> {
    fn eq(&self, other: &Spanned<T>) -> (r: bool) {
        self.node == other.node
    }
}

impl<T: PartialEq> vstd::std_specs::cmp::PartialEqSpecImpl for Spanned<T> {
    open spec fn obeys_eq_spec() -> bool {
        <T as PartialEqSpec>::obeys_eq_spec()
    }

    open spec fn eq_spec(&self, other: &Spanned<T>) -> bool {
        <T as PartialEqSpec>::eq_spec(&self.node, &other.node)
    }
}

impl<T: Eq> Eq for Spanned<T> {

}

} // verus!
