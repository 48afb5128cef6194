//! The decoder over an owned document, and the entry points of decoding.

use crate::de::{unused_views, FieldTransformer, NoTransform, UnusedKey, UnusedKeyView};
use crate::de::borrowed::ValueRefDeserializer;
use crate::de::outcome::{agrees, result_view};
use crate::de::semantics::{decode, decode_missing, quiet, transformed, Outcome};
use crate::de::structs::missing_field;
use crate::decoded::{Decoded, DecodedView};
use crate::error::{Error, ErrorKindView, ErrorView};
use crate::path::{Path, PathView};
use crate::shape::Shape;
use crate::span::Span;
use crate::value::{Value, ValueView};
use crate::verbatim::Verbatim;
use vstd::prelude::*;
use vstd::string::*;

verus! {

/// A decoder for one owned node of the document.
pub struct ValueDeserializer<'p, 'f, F> {
    /// The node.
    pub value: Value,
    /// The position of the node.
    pub path: Path<'p>,
    /// The field transformer.
    pub transformer: &'f F,
    /// True if the node has been through the transformer already.
    pub is_transformed: bool,
    /// The apply-transform flag.
    pub should_transform: bool,
}

impl<'p, 'f, F: FieldTransformer> ValueDeserializer<'p, 'f, F> {
    /// What decoding the node into `shape` gives.
    pub open spec fn spec_decode(&self, shape: &Shape) -> Outcome {
        decode(
            self.transformer,
            self.value@,
            shape,
            self.should_transform,
            self.is_transformed,
            self.path@,
        )
    }

    /// A decoder for the root of a document.
    pub fn new(value: Value, transformer: &'f F) -> (de: Self)
        ensures
            de.value == value,
            de.path == Path::Root,
            de.transformer == transformer,
            !de.is_transformed,
            de.should_transform,
    {
        ValueDeserializer {
            value,
            path: Path::Root,
            transformer,
            is_transformed: false,
            should_transform: true,
        }
    }

    /// A decoder for the node at `path`.
    pub fn new_with(
        value: Value,
        path: Path<'p>,
        transformer: &'f F,
        should_transform: bool,
    ) -> (de: Self)
        ensures
            de.value == value,
            de.path == path,
            de.transformer == transformer,
            !de.is_transformed,
            de.should_transform == should_transform,
    {
        ValueDeserializer { value, path, transformer, is_transformed: false, should_transform }
    }

    /// A decoder for a node at `path` that has been through the transformer.
    pub fn new_with_transformed(
        value: Value,
        path: Path<'p>,
        transformer: &'f F,
        should_transform: bool,
    ) -> (de: Self)
        ensures
            de.value == value,
            de.path == path,
            de.transformer == transformer,
            de.is_transformed,
            de.should_transform == should_transform,
    {
        ValueDeserializer { value, path, transformer, is_transformed: true, should_transform }
    }

    /// Hands the node to the transformer, where the apply-transform flag is
    /// on and the node has not been through the transformer already, and
    /// puts the replacement in its place if the transformer gave one. The
    /// node then counts as transformed.
    pub fn maybe_apply_transformation(&mut self) -> (r: Result<(), Error>)
        ensures
            final(self).path == old(self).path,
            final(self).transformer == old(self).transformer,
            final(self).should_transform == old(self).should_transform,
            match r {
                Ok(_) => {
                    &&& final(self).is_transformed
                    &&& transformed(
                        old(self).transformer,
                        old(self).value@,
                        old(self).should_transform,
                        old(self).is_transformed,
                    ) == Ok::<ValueView, ErrorView>(final(self).value@)
                },
                Err(e) => {
                    &&& final(self).value@ == old(self).value@
                    &&& final(self).is_transformed == old(self).is_transformed
                    &&& transformed(
                        old(self).transformer,
                        old(self).value@,
                        old(self).should_transform,
                        old(self).is_transformed,
                    ) == Err::<ValueView, ErrorView>(e@)
                },
            },
    {
        if self.should_transform && !self.is_transformed {
            match self.transformer.transform(&self.value) {
                Ok(Some(w)) => {
                    self.value = w;
                    self.is_transformed = true;
                    Ok(())
                },
                Ok(None) => {
                    self.is_transformed = true;
                    Ok(())
                },
                Err(e) => Err(Error::external(e, self.value.span())),
            }
        } else {
            self.is_transformed = true;
            Ok(())
        }
    }

    /// Decodes the node into `shape`, and adds to `unused` a report for each
    /// key of a mapping that no field took.
    pub fn deserialize(self, shape: &Shape, unused: &mut Vec<UnusedKey>) -> (r: Result<
        Decoded,
        Error,
    >)
        ensures
            agrees(r, old(unused)@, final(unused)@, self.spec_decode(shape)),
    {
        let de = ValueRefDeserializer {
            value: &self.value,
            path: self.path,
            transformer: self.transformer,
            is_transformed: self.is_transformed,
            should_transform: self.should_transform,
        };
        de.deserialize(shape, unused)
    }
}

impl Value {
    /// What decoding this document into `shape` gives: the decoded value or
    /// the error, and the reports of unused keys.
    pub open spec fn spec_typed<F: FieldTransformer>(&self, shape: &Shape, transformer: &F)
        -> Outcome {
        decode(transformer, self@, shape, true, false, PathView::Root)
    }

    /// Decodes the document into `shape`, consuming it.
    ///
    /// Each node is handed to `transformer` before it is decoded, except
    /// where the shape keeps the transformer away. For each key of a mapping
    /// that no field of the target takes, a report is added to `unused`.
    pub fn into_typed<F: FieldTransformer>(
        self,
        shape: &Shape,
        unused: &mut Vec<UnusedKey>,
        transformer: &F,
    ) -> (r: Result<Decoded, Error>)
        ensures
            agrees(r, old(unused)@, final(unused)@, self.spec_typed(shape, transformer)),
    {
        ValueDeserializer::new(self, transformer).deserialize(shape, unused)
    }

    /// Decodes the document into `shape`, without consuming it.
    pub fn to_typed<F: FieldTransformer>(
        &self,
        shape: &Shape,
        unused: &mut Vec<UnusedKey>,
        transformer: &F,
    ) -> (r: Result<Decoded, Error>)
        ensures
            agrees(r, old(unused)@, final(unused)@, self.spec_typed(shape, transformer)),
    {
        ValueRefDeserializer::new(self, transformer).deserialize(shape, unused)
    }
}

/// What decoding a captured node, or the record of an absent field, into
/// `shape` gives.
pub open spec fn verbatim_typed<F: FieldTransformer>(
    captured: Option<ValueView>,
    shape: &Shape,
    transformer: &F,
) -> Outcome {
    match captured {
        Some(v) => decode(transformer, v, shape, true, false, PathView::Root),
        None => quiet(
            match decode_missing(shape, Seq::empty(), Span::spec_zero()) {
                Ok(d) => Ok(d),
                Err(_) => Err(
                    ErrorView {
                        kind: ErrorKindView::Custom("missing field"@),
                        span: Span::spec_zero(),
                    },
                ),
            },
        ),
    }
}

/// What the record of an absent field decodes into.
fn absent_typed(shape: &Shape) -> (r: Result<Decoded, Error>)
    ensures
        result_view(r) == (match decode_missing(shape, Seq::empty(), Span::spec_zero()) {
            Ok(d) => Ok::<DecodedView, ErrorView>(d),
            Err(_) => Err::<DecodedView, ErrorView>(
                ErrorView {
                    kind: ErrorKindView::Custom("missing field"@),
                    span: Span::spec_zero(),
                },
            ),
        }),
{
    match missing_field(shape, &String::new(), Span::zero()) {
        Ok(d) => Ok(d),
        Err(_) => Err(Error::custom(String::from_str("missing field"))),
    }
}

impl Verbatim {
    /// Decodes the captured node into `shape`, consuming the wrapper. The
    /// record of an absent field decodes into what an absent field of that
    /// shape receives.
    pub fn into_typed<F: FieldTransformer>(
        self,
        shape: &Shape,
        unused: &mut Vec<UnusedKey>,
        transformer: &F,
    ) -> (r: Result<Decoded, Error>)
        ensures
            agrees(r, old(unused)@, final(unused)@, verbatim_typed(self@, shape, transformer)),
    {
        proof {
            assert(unused_views(unused@) =~= unused_views(unused@) + Seq::<UnusedKeyView>::empty());
        }
        match self.into_inner() {
            Some(value) => value.into_typed(shape, unused, transformer),
            None => absent_typed(shape),
        }
    }

    /// Decodes the captured node into `shape`, without the field
    /// transformer and without a sink for unused keys.
    pub fn into_typed_default(self, shape: &Shape) -> (r: Result<Decoded, Error>)
        ensures
            result_view(r) == verbatim_typed(self@, shape, &NoTransform).result,
    {
        let mut unused: Vec<UnusedKey> = Vec::new();
        self.into_typed(shape, &mut unused, &NoTransform)
    }

    /// Decodes the captured node into `shape`, without consuming the
    /// wrapper.
    pub fn to_typed<F: FieldTransformer>(
        &self,
        shape: &Shape,
        unused: &mut Vec<UnusedKey>,
        transformer: &F,
    ) -> (r: Result<Decoded, Error>)
        ensures
            agrees(r, old(unused)@, final(unused)@, verbatim_typed(self@, shape, transformer)),
    {
        proof {
            assert(unused_views(unused@) =~= unused_views(unused@) + Seq::<UnusedKeyView>::empty());
        }
        match self.as_ref() {
            Some(value) => value.to_typed(shape, unused, transformer),
            None => absent_typed(shape),
        }
    }

    /// Decodes the captured node into `shape`, without consuming the
    /// wrapper, without the field transformer and without a sink for unused
    /// keys.
    pub fn to_typed_default(&self, shape: &Shape) -> (r: Result<Decoded, Error>)
        ensures
            result_view(r) == verbatim_typed(self@, shape, &NoTransform).result,
    {
        let mut unused: Vec<UnusedKey> = Vec::new();
        self.to_typed(shape, &mut unused, &NoTransform)
    }
}

} // verus!
