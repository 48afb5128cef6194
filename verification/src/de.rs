//! The typed decoder: from a node of the document and the description of a
//! target type to a decoded value.

pub mod borrowed;
pub mod enums;
pub mod maps;
pub mod outcome;
pub mod owned;
pub mod semantics;
pub mod sequences;
pub mod structs;
pub mod tree;

use crate::error::ExternalError;
use crate::value::{Value, ValueView};
use vstd::prelude::*;

verus! {

/// What a field transformer returns: a replacement for the node, `None` to
/// keep the node, or an error of the caller's own.
pub type TransformedResult = Result<Option<Value>, ExternalError>;

/// The model of a [`TransformedResult`]: the model of the replacement, or
/// the message of the error.
pub open spec fn transformed_view(r: TransformedResult) -> Result<Option<ValueView>, Seq<char>> {
    match r {
        Ok(Some(v)) => Ok(Some(v@)),
        Ok(None) => Ok(None),
        Err(e) => Err(e.message@),
    }
}

/// A function that the decoder applies to a node before it decodes the
/// node. What it returns may depend on the node alone.
pub trait FieldTransformer {
    /// What the transformer makes of a node. Unless an implementation says
    /// otherwise, it keeps every node.
    open spec fn spec_transform(&self, v: ValueView) -> Result<Option<ValueView>, Seq<char>> {
        Ok(None)
    }

    /// Applies the transformer to a node.
    fn transform(&self, v: &Value) -> (r: TransformedResult)
        ensures
            transformed_view(r) == self.spec_transform(v@),
    ;
}

/// The transformer that keeps every node.
#[derive(Clone, Copy, Debug)]
pub struct NoTransform;

impl FieldTransformer for NoTransform {
    fn transform(&self, v: &Value) -> (r: TransformedResult) {
        Ok(None)
    }
}

/// The report of a key of a mapping that no field of the target took.
#[derive(Debug)]
pub struct UnusedKey {
    /// The path of the key, as diagnostics write it.
    pub path: String,
    /// The key.
    pub key: Value,
    /// The value under the key.
    pub value: Value,
}

/// The model of an [`UnusedKey`].
pub ghost struct UnusedKeyView {
    pub path: Seq<char>,
    pub key: ValueView,
    pub value: ValueView,
}

impl View for UnusedKey {
    type V = UnusedKeyView;

    open spec fn view(&self) -> UnusedKeyView {
        UnusedKeyView { path: self.path@, key: self.key@, value: self.value@ }
    }
}

/// The models of a sequence of reports.
pub open spec fn unused_views(reports: Seq<UnusedKey>) -> Seq<UnusedKeyView> {
    reports.map_values(|r: UnusedKey| r@)
}

} // verus!
