//! The decoder for enums.

use crate::de::{unused_views, FieldTransformer, UnusedKey, UnusedKeyView};
use crate::de::borrowed::ValueRefDeserializer;
use crate::de::outcome::{agrees, agrees_quietly, invalid_type};
use crate::de::semantics::{bare_variant_error, payload_decode, quiet, variant_decode, Outcome};
use crate::de::sequences::visit_tuple_ref;
use crate::de::structs::visit_struct_ref;
use crate::decoded::{lemma_decoded_pair_views, lemma_decoded_views, Decoded};
use crate::error::{texts, Error, ErrorKind, Unexpected};
use crate::path::Path;
use crate::shape::{
    lemma_variant_position, lemma_variant_position_is, variant_names, variant_position, EnumShape,
    Payload, Shape, StructShape,
};
use crate::span::Span;
use crate::text::same_text;
use crate::value::{lemma_pair_views, lemma_views, Value, ValueView};
use vstd::prelude::*;
use vstd::string::*;

verus! {

broadcast use {lemma_views, lemma_pair_views, lemma_decoded_views, lemma_decoded_pair_views};

/// The model of an optional borrowed node.
pub open spec fn payload_view(value: Option<&Value>) -> Option<ValueView> {
    match value {
        Some(v) => Some(v@),
        None => None,
    }
}

/// The error for a variant that was given without a payload where it
/// carries one.
pub fn bare_variant(expected: &str, span: Span) -> (e: Error)
    ensures
        e@ == bare_variant_error(expected@, span),
{
    Error::new(
        ErrorKind::InvalidType {
            unexpected: Unexpected::UnitVariant,
            expected: String::from_str(expected),
        },
        span,
    )
}

/// The position of the variant that is called `name`.
pub fn find_variant(e: &EnumShape, name: &str) -> (r: Option<usize>)
    ensures
        match r {
            Some(p) => p < e.variants.len() && p == variant_position(e.variants@, name@),
            None => variant_position(e.variants@, name@) >= e.variants.len(),
        },
{
    let mut k: usize = 0;
    while k < e.variants.len()
        invariant
            k <= e.variants.len(),
            forall|j: int| 0 <= j < k ==> (#[trigger] e.variants@[j]).name@ != name@,
        decreases e.variants.len() - k,
    {
        if same_text(e.variants[k].name.as_str(), name) {
            proof {
                lemma_variant_position_is(e.variants@, name@, k as int);
            }
            return Some(k);
        }
        k += 1;
    }
    proof {
        lemma_variant_position_is(e.variants@, name@, k as int);
    }
    None
}

/// The names of the variants of an enum.
pub fn names_of(e: &EnumShape) -> (r: Vec<String>)
    ensures
        texts(r@) == variant_names(e.variants@),
{
    let mut names: Vec<String> = Vec::new();
    let mut k: usize = 0;
    while k < e.variants.len()
        invariant
            k <= e.variants.len(),
            names.len() == k,
            forall|j: int| 0 <= j < k ==> names[j]@ == e.variants[j].name@,
        decreases e.variants.len() - k,
    {
        names.push(e.variants[k].name.clone());
        k += 1;
    }
    assert(texts(names@) =~= variant_names(e.variants@));
    names
}

/// A decoder for what a variant of an enum carries.
pub struct VariantRefDeserializer<'p, 'v, F> {
    /// The node that the tag annotates, if the variant was given by a tag.
    pub value: Option<&'v Value>,
    /// The position of the enum.
    pub path: Path<'p>,
    /// The span of the node that gave the variant.
    pub span: Span,
    /// The field transformer.
    pub transformer: &'v F,
    /// The apply-transform flag.
    pub should_transform: bool,
}

impl<'p, 'v, F: FieldTransformer> VariantRefDeserializer<'p, 'v, F> {
    /// What decoding the payload as `kind` gives.
    pub open spec fn spec_payload(&self, kind: &Payload) -> Outcome {
        payload_decode(
            self.transformer,
            payload_view(self.value),
            kind,
            self.should_transform,
            self.path@,
            self.span,
        )
    }

    /// Decodes the payload of a variant that carries nothing: no node, or
    /// null.
    pub fn unit_variant(self) -> (r: Result<Decoded, Error>)
        ensures
            agrees_quietly(r, self.spec_payload(&Payload::Unit)),
    {
        match self.value {
            None => Ok(Decoded::Unit),
            Some(v) => match v {
                Value::Null(_) => Ok(Decoded::Unit),
                _ => Err(invalid_type(v, String::from_str("unit"))),
            },
        }
    }

    /// Decodes the payload of a variant that carries one value.
    pub fn newtype_variant_seed(self, shape: &Shape, unused: &mut Vec<UnusedKey>) -> (r: Result<
        Decoded,
        Error,
    >)
        ensures
            agrees(r, old(unused)@, final(unused)@, self.spec_payload(&Payload::Newtype(*shape))),
        decreases shape, 5int, 0int,
    {
        proof {
            assert(unused_views(unused@) =~= unused_views(unused@) + Seq::<UnusedKeyView>::empty());
        }
        match self.value {
            Some(v) => {
                let de = ValueRefDeserializer::new_with(
                    v,
                    self.path,
                    self.transformer,
                    self.should_transform,
                );
                de.deserialize(shape, unused)
            },
            None => Err(bare_variant("newtype variant", self.span)),
        }
    }

    /// Decodes the payload of a variant that carries a fixed number of
    /// values.
    pub fn tuple_variant(self, shapes: &Vec<Shape>, unused: &mut Vec<UnusedKey>) -> (r: Result<
        Decoded,
        Error,
    >)
        ensures
            agrees(r, old(unused)@, final(unused)@, self.spec_payload(&Payload::Tuple(*shapes))),
        decreases shapes, 5int, 0int,
    {
        proof {
            assert(unused_views(unused@) =~= unused_views(unused@) + Seq::<UnusedKeyView>::empty());
        }
        match self.value {
            Some(v) => match v {
                Value::Sequence(items, span) => visit_tuple_ref(
                    items,
                    self.path,
                    shapes,
                    "tuple variant",
                    *span,
                    self.transformer,
                    self.should_transform,
                    unused,
                ),
                _ => Err(invalid_type(v, String::from_str("tuple variant"))),
            },
            None => Err(bare_variant("tuple variant", self.span)),
        }
    }

    /// Decodes the payload of a variant that carries named fields.
    pub fn struct_variant(self, s: &'v StructShape, unused: &mut Vec<UnusedKey>) -> (r: Result<
        Decoded,
        Error,
    >)
        ensures
            agrees(r, old(unused)@, final(unused)@, self.spec_payload(&Payload::Struct(*s))),
        decreases s, 5int, 0int,
    {
        proof {
            assert(unused_views(unused@) =~= unused_views(unused@) + Seq::<UnusedKeyView>::empty());
        }
        match self.value {
            Some(v) => match v {
                Value::Mapping(map, span) => {
                    match visit_struct_ref(
                        map.entries(),
                        s,
                        self.path,
                        *span,
                        self.transformer,
                        self.should_transform,
                        false,
                        unused,
                    ) {
                        Ok(pair) => Ok(pair.0),
                        Err(e) => Err(e),
                    }
                },
                _ => Err(invalid_type(v, String::from_str("struct variant"))),
            },
            None => Err(bare_variant("struct variant", self.span)),
        }
    }

    /// Decodes the payload as `kind`.
    pub fn deserialize_payload(self, kind: &'v Payload, unused: &mut Vec<UnusedKey>) -> (r:
        Result<Decoded, Error>)
        ensures
            agrees(r, old(unused)@, final(unused)@, self.spec_payload(kind)),
        decreases kind, 6int, 0int,
    {
        proof {
            assert(unused_views(unused@) =~= unused_views(unused@) + Seq::<UnusedKeyView>::empty());
        }
        match kind {
            Payload::Unit => self.unit_variant(),
            Payload::Newtype(shape) => self.newtype_variant_seed(shape, unused),
            Payload::Tuple(shapes) => self.tuple_variant(shapes, unused),
            Payload::Struct(s) => self.struct_variant(s, unused),
        }
    }
}

/// A decoder for an enum: the name that selects the variant, and the node
/// that the variant is decoded from.
pub struct EnumRefDeserializer<'p, 'v, F> {
    /// The name of the variant: a tag without its leading `!`, or a text.
    pub tag: &'v str,
    /// The node that the tag annotates, if the variant was given by a tag.
    pub value: Option<&'v Value>,
    /// The position of the enum.
    pub path: Path<'p>,
    /// The span of the node that gave the variant.
    pub span: Span,
    /// The field transformer.
    pub transformer: &'v F,
    /// The apply-transform flag.
    pub should_transform: bool,
}

impl<'p, 'v, F: FieldTransformer> EnumRefDeserializer<'p, 'v, F> {
    /// What decoding the variant of `e` that the name selects gives.
    pub open spec fn spec_variant(&self, e: &EnumShape) -> Outcome {
        variant_decode(
            self.transformer,
            self.tag@,
            payload_view(self.value),
            e,
            self.should_transform,
            self.path@,
            self.span,
        )
    }

    /// Finds the variant that the name selects, and returns its position
    /// and the decoder for what it carries.
    pub fn variant_seed(self, e: &EnumShape) -> (r: Result<
        (usize, VariantRefDeserializer<'p, 'v, F>),
        Error,
    >)
        ensures
            match r {
                Ok((p, variant)) => {
                    &&& p < e.variants.len()
                    &&& p == variant_position(e.variants@, self.tag@)
                    &&& variant.value == self.value
                    &&& variant.path == self.path
                    &&& variant.span == self.span
                    &&& variant.transformer == self.transformer
                    &&& variant.should_transform == self.should_transform
                },
                Err(err) => {
                    &&& variant_position(e.variants@, self.tag@) >= e.variants.len()
                    &&& self.spec_variant(e) == quiet(Err(err@))
                },
            },
    {
        match find_variant(e, self.tag) {
            Some(p) => Ok(
                (
                    p,
                    VariantRefDeserializer {
                        value: self.value,
                        path: self.path,
                        span: self.span,
                        transformer: self.transformer,
                        should_transform: self.should_transform,
                    },
                ),
            ),
            None => Err(
                Error::new(
                    ErrorKind::UnknownVariant {
                        variant: String::from_str(self.tag),
                        known: names_of(e),
                    },
                    self.span,
                ),
            ),
        }
    }

    /// Decodes the variant of `e` that the name selects.
    pub fn deserialize_variant(self, e: &'v EnumShape, unused: &mut Vec<UnusedKey>) -> (r: Result<
        Decoded,
        Error,
    >)
        ensures
            agrees(r, old(unused)@, final(unused)@, self.spec_variant(e)),
        decreases e, 4int, 0int,
    {
        proof {
            assert(unused_views(unused@) =~= unused_views(unused@) + Seq::<UnusedKeyView>::empty());
            lemma_variant_position(e.variants@, self.tag@);
        }
        match self.variant_seed(e) {
            Err(err) => Err(err),
            Ok((p, variant)) => {
                match variant.deserialize_payload(&e.variants[p].payload, unused) {
                    Ok(d) => Ok(Decoded::Variant(e.variants[p].name.clone(), Box::new(d))),
                    Err(err) => Err(err),
                }
            },
        }
    }
}

} // verus!
