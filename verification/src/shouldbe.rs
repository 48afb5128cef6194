//! A container for a value that should have decoded as some type, and for
//! the reason why it did not.

use crate::error::{Error, ErrorView};
use crate::value::{Value, ValueView};
use vstd::prelude::*;
use vstd::std_specs::cmp::PartialEqSpec;

verus! {

/// Why a value is not what it should be.
#[derive(Debug)]
pub enum WhyNot {
    /// The error that the decoder raised.
    Original(Error),
    /// A reason in words.
    Custom(String),
}

/// The model of a [`WhyNot`].
pub ghost enum WhyNotView {
    Original(ErrorView),
    Custom(Seq<char>),
}

impl View for WhyNot {
    type V = WhyNotView;

    open spec fn view(&self) -> WhyNotView {
        match self {
            WhyNot::Original(e) => WhyNotView::Original(e@),
            WhyNot::Custom(msg) => WhyNotView::Custom(msg@),
        }
    }
}

impl WhyNotView {
    /// The reason as an error: the original error, or an error that holds
    /// the words.
    pub open spec fn as_error(self) -> ErrorView {
        match self {
            WhyNotView::Original(e) => e,
            WhyNotView::Custom(msg) => ErrorView {
                kind: crate::error::ErrorKindView::Custom(msg),
                span: crate::span::Span::spec_zero(),
            },
        }
    }
}

impl WhyNot {
    /// Turns the reason into an error.
    pub fn into_error(self) -> (e: Error)
        ensures
            e@ == self@.as_error(),
    {
        match self {
            WhyNot::Original(e) => e,
            WhyNot::Custom(msg) => Error::custom(msg),
        }
    }

    /// A copy of the reason.
    pub fn duplicate(&self) -> (r: WhyNot)
        ensures
            r@ == self@,
    {
        match self {
            WhyNot::Original(e) => WhyNot::Original(e.duplicate()),
            WhyNot::Custom(msg) => WhyNot::Custom(msg.clone()),
        }
    }
}

/// A value that should be a `T`: either it is one, or it is not and the
/// container says why. Decoding into a `ShouldBe` never fails; a failure of
/// the inner decode becomes data.
#[derive(Debug)]
pub enum ShouldBe<T> {
    /// The value decoded as a `T`.
    AndIs(T),
    /// The value did not decode as a `T`.
    ButIsnt {
        /// The node that the decoder was given, where it was given one.
        raw: Option<Value>,
        /// Why the node is not a `T`.
        why_not: WhyNot,
    },
}

/// The model of an optional value.
pub open spec fn raw_view(raw: Option<Value>) -> Option<ValueView> {
    match raw {
        Some(v) => Some(v@),
        None => None,
    }
}

impl<T> ShouldBe<T> {
    /// The value, if it is a `T`.
    pub fn as_ref(&self) -> (r: Option<&T>)
        ensures
            r == (match self {
                ShouldBe::AndIs(t) => Some(t),
                ShouldBe::ButIsnt { .. } => None::<&T>,
            }),
    {
        match self {
            ShouldBe::AndIs(value) => Some(value),
            ShouldBe::ButIsnt { raw: _, why_not: _ } => None,
        }
    }

    /// The value for changing in place, if it is a `T`.
    pub fn as_ref_mut(&mut self) -> (r: Option<&mut T>)
        ensures
            match r {
                Some(t) => *old(self) == ShouldBe::<T>::AndIs(*t) && *final(self)
                    == ShouldBe::<T>::AndIs(*final(t)),
                None => *old(self) is ButIsnt && *final(self) == *old(self),
            },
    {
        match self {
            ShouldBe::AndIs(value) => Some(value),
            ShouldBe::ButIsnt { raw: _, why_not: _ } => None,
        }
    }

    /// Takes the node that failed to decode out of the container, if it was
    /// kept.
    pub fn take_raw(&mut self) -> (r: Option<Value>)
        ensures
            match *old(self) {
                ShouldBe::AndIs(_) => r is None && *final(self) == *old(self),
                ShouldBe::ButIsnt { raw, why_not } => r == raw && *final(self)
                    == (ShouldBe::<T>::ButIsnt { raw: None, why_not }),
            },
    {
        match self {
            ShouldBe::AndIs(_) => None,
            ShouldBe::ButIsnt { raw, why_not: _ } => raw.take(),
        }
    }

    /// The error that the decoder raised, if the value is not a `T` and the
    /// reason is an error.
    pub fn as_ref_err(&self) -> (r: Option<&Error>)
        ensures
            r == (match self {
                ShouldBe::ButIsnt { why_not: WhyNot::Original(e), .. } => Some(e),
                _ => None::<&Error>,
            }),
    {
        match self {
            ShouldBe::AndIs(_) => None,
            ShouldBe::ButIsnt { raw: _, why_not } => match why_not {
                WhyNot::Original(err) => Some(err),
                WhyNot::Custom(_) => None,
            },
        }
    }

    /// The node that failed to decode, if it was kept.
    pub fn as_ref_raw(&self) -> (r: Option<&Value>)
        ensures
            r == (match self {
                ShouldBe::ButIsnt { raw: Some(v), .. } => Some(v),
                _ => None::<&Value>,
            }),
    {
        match self {
            ShouldBe::AndIs(_) => None,
            ShouldBe::ButIsnt { raw, why_not: _ } => raw.as_ref(),
        }
    }

    /// True if the value is a `T`.
    pub fn is(&self) -> (b: bool)
        ensures
            b == (*self is AndIs),
    {
        match self {
            ShouldBe::AndIs(_) => true,
            ShouldBe::ButIsnt { .. } => false,
        }
    }

    /// True if the value is not a `T`.
    pub fn isnt(&self) -> (b: bool)
        ensures
            b == (*self is ButIsnt),
    {
        match self {
            ShouldBe::AndIs(_) => false,
            ShouldBe::ButIsnt { .. } => true,
        }
    }

    /// Unwraps the value, if it is a `T`.
    pub fn into_inner(self) -> (r: Option<T>)
        ensures
            r == (match self {
                ShouldBe::AndIs(t) => Some(t),
                ShouldBe::ButIsnt { .. } => None::<T>,
            }),
    {
        match self {
            ShouldBe::AndIs(value) => Some(value),
            ShouldBe::ButIsnt { raw: _, why_not: _ } => None,
        }
    }

    /// Unwraps the node that failed to decode, if it was kept.
    pub fn into_raw(self) -> (r: Option<Value>)
        ensures
            r == (match self {
                ShouldBe::ButIsnt { raw, .. } => raw,
                ShouldBe::AndIs(_) => None::<Value>,
            }),
    {
        match self {
            ShouldBe::AndIs(_) => None,
            ShouldBe::ButIsnt { raw, why_not: _ } => raw,
        }
    }

    /// Unwraps the reason as an error.
    pub fn unwrap_err(self) -> (e: Error)
        requires
            self is ButIsnt,
        ensures
            self matches ShouldBe::ButIsnt { why_not, .. } && e@ == why_not@.as_error(),
    {
        match self {
            ShouldBe::AndIs(_) => {
                proof {
                    assert(false);
                }
                Error::custom(String::new())
            },
            ShouldBe::ButIsnt { raw: _, why_not } => why_not.into_error(),
        }
    }

    /// The value as a result: the `T`, or the reason as an error.
    pub fn into_result(self) -> (r: Result<T, Error>)
        ensures
            match self {
                ShouldBe::AndIs(t) => r == Ok::<T, Error>(t),
                ShouldBe::ButIsnt { why_not, .. } => r matches Err(e) && e@ == why_not@.as_error(),
            },
    {
        match self {
            ShouldBe::AndIs(value) => Ok(value),
            ShouldBe::ButIsnt { raw: _, why_not } => Err(why_not.into_error()),
        }
    }
}


/// Two optional nodes are equal when both are absent or both are present
/// and equal, spans ignored.
pub open spec fn raw_same(a: Option<Value>, b: Option<Value>) -> bool {
    match (a, b) {
        (Some(x), Some(y)) => crate::value::same(x@, y@),
        (None, None) => true,
        _ => false,
    }
}

impl<T: PartialEq> PartialEq for ShouldBe<T> {
    fn eq(&self, other: &ShouldBe<T>) -> (r: bool) {
        match (self, other) {
            (ShouldBe::AndIs(a), ShouldBe::AndIs(b)) => *a == *b,
            (ShouldBe::ButIsnt { raw: a, .. }, ShouldBe::ButIsnt { raw: b, .. }) => match (a, b) {
                (Some(x), Some(y)) => x.same(y),
                (None, None) => true,
                _ => false,
            },
            _ => false,
        }
    }
}

impl<T: PartialEq> vstd::std_specs::cmp::PartialEqSpecImpl for ShouldBe<T> {
    open spec fn obeys_eq_spec() -> bool {
        <T as PartialEqSpec>::obeys_eq_spec()
    }

    open spec fn eq_spec(&self, other: &ShouldBe<T>) -> bool {
        match (*self, *other) {
            (ShouldBe::AndIs(a), ShouldBe::AndIs(b)) => <T as PartialEqSpec>::eq_spec(&a, &b),
            (ShouldBe::ButIsnt { raw: a, .. }, ShouldBe::ButIsnt { raw: b, .. }) => raw_same(a, b),
            _ => false,
        }
    }
}

} // verus!
