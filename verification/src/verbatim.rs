//! Wrappers that keep the field transformer away from a part of the
//! document.

use crate::value::{Value, ValueView};
use vstd::prelude::*;

verus! {

/// A node of the document that was captured as it stood, without being
/// handed to the field transformer, or the record that the field was absent
/// from its mapping. An absent field is not a present null.
#[derive(Debug)]
pub struct Verbatim {
    inner: Option<Value>,
}

impl View for Verbatim {
    type V = Option<ValueView>;

    closed spec fn view(&self) -> Option<ValueView> {
        match self.inner {
            Some(v) => Some(v@),
            None => None,
        }
    }
}

impl Verbatim {
    /// Captures `value`.
    pub fn new(value: Value) -> (r: Verbatim)
        ensures
            r@ == Some(value@),
    {
        Verbatim { inner: Some(value) }
    }

    /// The record of an absent field.
    pub fn new_missing() -> (r: Verbatim)
        ensures
            r@ is None,
    {
        Verbatim { inner: None }
    }

    /// The captured node, if the field was present.
    pub fn as_ref(&self) -> (r: Option<&Value>)
        ensures
            match r {
                Some(v) => self@ == Some(v@),
                None => self@ is None,
            },
    {
        self.inner.as_ref()
    }

    /// Unwraps the captured node, if the field was present.
    pub fn into_inner(self) -> (r: Option<Value>)
        ensures
            match r {
                Some(v) => self@ == Some(v@),
                None => self@ is None,
            },
    {
        self.inner
    }

    /// True if the field was absent.
    pub fn is_missing(&self) -> (b: bool)
        ensures
            b == (self@ is None),
    {
        self.inner.is_none()
    }

    /// True if the field was present.
    pub fn is_present(&self) -> (b: bool)
        ensures
            b == (self@ is Some),
    {
        self.inner.is_some()
    }

    /// A copy of the wrapper.
    pub fn duplicate(&self) -> (r: Verbatim)
        ensures
            r@ == self@,
    {
        match &self.inner {
            Some(v) => Verbatim { inner: Some(v.duplicate()) },
            None => Verbatim { inner: None },
        }
    }
}

/// A value that was decoded with the field transformer switched off for the
/// whole of its subtree.
#[derive(Debug)]
pub struct VerbatimLegacy<T>(pub T);

impl<T> VerbatimLegacy<T> {
    /// Wraps a value.
    pub fn new(value: T) -> (r: VerbatimLegacy<T>)
        ensures
            r.0 == value,
    {
        VerbatimLegacy(value)
    }

    /// The value.
    pub fn as_ref(&self) -> (r: &T)
        ensures
            *r == self.0,
    {
        &self.0
    }

    /// Unwraps the value.
    pub fn into_inner(self) -> (r: T)
        ensures
            r == self.0,
    {
        self.0
    }
}

} // verus!
