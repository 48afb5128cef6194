//! The decoder over a borrowed document.

use crate::de::{unused_views, FieldTransformer, UnusedKey, UnusedKeyView};
use crate::de::enums::EnumRefDeserializer;
use crate::de::maps::visit_mapping_ref;
use crate::de::outcome::{agrees, agrees_quietly, integer_from, invalid_type};
use crate::de::semantics::{decode, transformed, Outcome};
use crate::de::sequences::{visit_sequence_ref, visit_tuple_ref};
use crate::de::structs::visit_struct_ref;
use crate::de::tree::{bytes_of, rebuild_value};
use crate::decoded::{
    decoded_pair_views, decoded_views, lemma_decoded_pair_views, lemma_decoded_views, Decoded,
    DecodedView,
};
use crate::error::{Error, ErrorKind, ErrorView, Unexpected};
use crate::path::Path;
use crate::shape::{EnumShape, IntKind, MapShape, Shape, StructShape};
use crate::shouldbe::{ShouldBe, WhyNot};
use crate::spanned::Spanned;
use crate::text::nobang;
use crate::value::{lemma_pair_views, lemma_views, pair_views, views, Value, ValueView};
use crate::verbatim::{Verbatim, VerbatimLegacy};
use vstd::prelude::*;
use vstd::string::*;

verus! {

broadcast use {lemma_views, lemma_pair_views, lemma_decoded_views, lemma_decoded_pair_views};

/// A decoder for one borrowed node of the document.
pub struct ValueRefDeserializer<'p, 'v, F> {
    /// The node.
    pub value: &'v Value,
    /// The position of the node.
    pub path: Path<'p>,
    /// The field transformer.
    pub transformer: &'v F,
    /// True if the node has been through the transformer already.
    pub is_transformed: bool,
    /// The apply-transform flag.
    pub should_transform: bool,
}

impl<'p, 'v, F: FieldTransformer> ValueRefDeserializer<'p, 'v, F> {
    /// What decoding the node into `shape` gives.
    pub open spec fn spec_decode(&self, shape: &Shape) -> Outcome {
        decode(
            self.transformer,
            self.value@,
            shape,
            self.should_transform,
            self.is_transformed,
            self.path@,
        )
    }

    /// The node that is decoded in place of the node of this decoder.
    pub open spec fn spec_transformed(&self) -> Result<ValueView, ErrorView> {
        transformed(self.transformer, self.value@, self.should_transform, self.is_transformed)
    }

    /// A decoder for the root of a document.
    pub fn new(value: &'v Value, transformer: &'v F) -> (de: Self)
        ensures
            de.value == value,
            de.path == Path::Root,
            de.transformer == transformer,
            !de.is_transformed,
            de.should_transform,
    {
        ValueRefDeserializer {
            value,
            path: Path::Root,
            transformer,
            is_transformed: false,
            should_transform: true,
        }
    }

    /// A decoder for the node at `path`.
    pub fn new_with(
        value: &'v Value,
        path: Path<'p>,
        transformer: &'v F,
        should_transform: bool,
    ) -> (de: Self)
        ensures
            de.value == value,
            de.path == path,
            de.transformer == transformer,
            !de.is_transformed,
            de.should_transform == should_transform,
    {
        ValueRefDeserializer { value, path, transformer, is_transformed: false, should_transform }
    }

    /// A decoder for a node at `path` that has been through the transformer.
    pub fn new_with_transformed(
        value: &'v Value,
        path: Path<'p>,
        transformer: &'v F,
        should_transform: bool,
    ) -> (de: Self)
        ensures
            de.value == value,
            de.path == path,
            de.transformer == transformer,
            de.is_transformed,
            de.should_transform == should_transform,
    {
        ValueRefDeserializer { value, path, transformer, is_transformed: true, should_transform }
    }

    /// Hands the node to the transformer, where the apply-transform flag is
    /// on and the node has not been through the transformer already. Returns
    /// the replacement, if the transformer gave one.
    pub fn maybe_apply_transformation(&self) -> (r: Result<Option<Value>, Error>)
        ensures
            match r {
                Ok(Some(w)) => self.spec_transformed() == Ok::<ValueView, ErrorView>(w@),
                Ok(None) => self.spec_transformed() == Ok::<ValueView, ErrorView>(self.value@),
                Err(e) => self.spec_transformed() == Err::<ValueView, ErrorView>(e@),
            },
    {
        if self.should_transform && !self.is_transformed {
            match self.transformer.transform(self.value) {
                Ok(Some(w)) => Ok(Some(w)),
                Ok(None) => Ok(None),
                Err(e) => Err(Error::external(e, self.value.span())),
            }
        } else {
            Ok(None)
        }
    }

    /// Decodes the node into the unit type: only null is accepted.
    pub fn deserialize_unit(self) -> (r: Result<Decoded, Error>)
        ensures
            agrees_quietly(r, self.spec_decode(&Shape::Unit)),
    {
        proof {
            reveal_with_fuel(decode, 2);
        }
        let replaced = self.maybe_apply_transformation()?;
        let v = match &replaced {
            Some(w) => w,
            None => self.value,
        };
        match v {
            Value::Null(_) => Ok(Decoded::Unit),
            _ => Err(invalid_type(v, Shape::Unit.expecting())),
        }
    }

    /// Decodes the node into a boolean.
    pub fn deserialize_bool(self) -> (r: Result<Decoded, Error>)
        ensures
            agrees_quietly(r, self.spec_decode(&Shape::Bool)),
    {
        proof {
            reveal_with_fuel(decode, 2);
        }
        let replaced = self.maybe_apply_transformation()?;
        let v = match &replaced {
            Some(w) => w,
            None => self.value,
        };
        match v.untag_ref() {
            Value::Bool(b, _) => Ok(Decoded::Bool(*b)),
            other => Err(invalid_type(other, Shape::Bool.expecting())),
        }
    }

    /// Decodes the node into an integer of the given type.
    pub fn deserialize_number(self, kind: IntKind) -> (r: Result<Decoded, Error>)
        ensures
            agrees_quietly(r, self.spec_decode(&Shape::Int(kind))),
    {
        proof {
            reveal_with_fuel(decode, 2);
        }
        let replaced = self.maybe_apply_transformation()?;
        let v = match &replaced {
            Some(w) => w,
            None => self.value,
        };
        match v.untag_ref() {
            Value::Number(n, span) => integer_from(n, kind, *span),
            other => Err(invalid_type(other, Shape::Int(kind).expecting())),
        }
    }

    /// Decodes the node into a float: any number is accepted, and is handed
    /// on as it is held.
    pub fn deserialize_float(self) -> (r: Result<Decoded, Error>)
        ensures
            agrees_quietly(r, self.spec_decode(&Shape::Float)),
    {
        proof {
            reveal_with_fuel(decode, 2);
        }
        let replaced = self.maybe_apply_transformation()?;
        let v = match &replaced {
            Some(w) => w,
            None => self.value,
        };
        match v.untag_ref() {
            Value::Number(n, _) => Ok(Decoded::Float(*n)),
            other => Err(invalid_type(other, Shape::Float.expecting())),
        }
    }

    /// Decodes the node into a text.
    pub fn deserialize_string(self) -> (r: Result<Decoded, Error>)
        ensures
            agrees_quietly(r, self.spec_decode(&Shape::Str)),
    {
        proof {
            reveal_with_fuel(decode, 2);
        }
        let replaced = self.maybe_apply_transformation()?;
        let v = match &replaced {
            Some(w) => w,
            None => self.value,
        };
        match v.untag_ref() {
            Value::String(s, _) => Ok(Decoded::Str(s.clone())),
            other => Err(invalid_type(other, Shape::Str.expecting())),
        }
    }

    /// Decodes the node into a character: a text of length one.
    pub fn deserialize_char(self) -> (r: Result<Decoded, Error>)
        ensures
            agrees_quietly(r, self.spec_decode(&Shape::Char)),
    {
        proof {
            reveal_with_fuel(decode, 2);
        }
        let replaced = self.maybe_apply_transformation()?;
        let v = match &replaced {
            Some(w) => w,
            None => self.value,
        };
        match v.untag_ref() {
            Value::String(s, span) => {
                if s.as_str().unicode_len() == 1 {
                    Ok(Decoded::Char(s.as_str().get_char(0)))
                } else {
                    Err(
                        Error::new(
                            ErrorKind::InvalidValue {
                                unexpected: Unexpected::Str(s.clone()),
                                expected: Shape::Char.expecting(),
                            },
                            *span,
                        ),
                    )
                }
            },
            other => Err(invalid_type(other, Shape::Char.expecting())),
        }
    }

    /// Decodes the node into a string of bytes: the bytes of a text, or the
    /// numbers of a sequence.
    pub fn deserialize_bytes(self) -> (r: Result<Decoded, Error>)
        ensures
            agrees_quietly(r, self.spec_decode(&Shape::Bytes)),
    {
        proof {
            reveal_with_fuel(decode, 2);
        }
        let replaced = self.maybe_apply_transformation()?;
        let v = match &replaced {
            Some(w) => w,
            None => self.value,
        };
        match v.untag_ref() {
            Value::String(s, _) => Ok(Decoded::Bytes(s.as_str().as_bytes_vec())),
            Value::Sequence(items, _) => {
                match bytes_of(self.transformer, items, self.should_transform) {
                    Ok(bytes) => Ok(Decoded::Bytes(bytes)),
                    Err(e) => Err(e),
                }
            },
            other => Err(invalid_type(other, Shape::Bytes.expecting())),
        }
    }

    /// Decodes the node into a node: the tree, with every node handed to the
    /// transformer from the root down.
    pub fn deserialize_any(self) -> (r: Result<Decoded, Error>)
        ensures
            agrees_quietly(r, self.spec_decode(&Shape::Any)),
    {
        proof {
            reveal_with_fuel(decode, 2);
        }
        match rebuild_value(
            self.transformer,
            self.value,
            self.should_transform,
            self.is_transformed,
        ) {
            Ok(v) => Ok(Decoded::Value(v)),
            Err(e) => Err(e),
        }
    }

    /// Drops the node.
    pub fn deserialize_ignored_any(self) -> (r: Result<Decoded, Error>)
        ensures
            agrees_quietly(r, self.spec_decode(&Shape::Ignored)),
    {
        Ok(Decoded::Unit)
    }

    /// Decodes the node into `shape`, and adds to `unused` a report for each
    /// key of a mapping that no field took.
    pub fn deserialize(self, shape: &Shape, unused: &mut Vec<UnusedKey>) -> (r: Result<
        Decoded,
        Error,
    >)
        ensures
            agrees(r, old(unused)@, final(unused)@, self.spec_decode(shape)),
        decreases shape, 3int, 0int,
    {
        proof {
            reveal_with_fuel(decode, 2);
            assert(unused_views(unused@) =~= unused_views(unused@) + Seq::<UnusedKeyView>::empty());
        }
        match shape {
            Shape::Verbatim(_) => Ok(Decoded::Verbatim(Verbatim::new(self.value.duplicate()))),
            Shape::Ignored => self.deserialize_ignored_any(),
            Shape::VerbatimLegacy(inner) => {
                let de = ValueRefDeserializer {
                    value: self.value,
                    path: self.path,
                    transformer: self.transformer,
                    is_transformed: self.is_transformed,
                    should_transform: false,
                };
                match de.deserialize(inner, unused) {
                    Ok(d) => Ok(Decoded::VerbatimLegacy(VerbatimLegacy::new(Box::new(d)))),
                    Err(e) => Err(e),
                }
            },
            Shape::ShouldBe(inner) => {
                let raw = self.value;
                match self.deserialize(inner, unused) {
                    Ok(d) => Ok(Decoded::ShouldBe(ShouldBe::AndIs(Box::new(d)))),
                    Err(e) => Ok(
                        Decoded::ShouldBe(
                            ShouldBe::ButIsnt {
                                raw: Some(raw.duplicate()),
                                why_not: WhyNot::Original(e),
                            },
                        ),
                    ),
                }
            },
            Shape::Spanned(inner) => {
                let span = self.value.span();
                match self.deserialize(inner, unused) {
                    Ok(d) => Ok(Decoded::Spanned(Spanned::with_span(Box::new(d), span))),
                    Err(e) => Err(e),
                }
            },
            Shape::Unit => self.deserialize_unit(),
            Shape::Bool => self.deserialize_bool(),
            Shape::Int(kind) => self.deserialize_number(*kind),
            Shape::Float => self.deserialize_float(),
            Shape::Char => self.deserialize_char(),
            Shape::Str => self.deserialize_string(),
            Shape::Bytes => self.deserialize_bytes(),
            Shape::Any => self.deserialize_any(),
            Shape::Optional(inner) => self.deserialize_option(inner, unused),
            Shape::Newtype(inner) => self.deserialize_newtype_struct(inner, unused),
            Shape::Sequence(elem) => self.deserialize_seq(elem, unused),
            Shape::Tuple(shapes) => self.deserialize_tuple(shapes, unused),
            Shape::Mapping(m) => self.deserialize_map(m, unused),
            Shape::Struct(s) => self.deserialize_struct(s, unused),
            Shape::Enum(e) => self.deserialize_enum(e, unused),
        }
    }

    /// Decodes the node into an optional value: null is the absent value,
    /// and any other node is decoded into `inner` without being handed to
    /// the transformer a second time.
    pub fn deserialize_option(self, inner: &Shape, unused: &mut Vec<UnusedKey>) -> (r: Result<
        Decoded,
        Error,
    >)
        ensures
            agrees(
                r,
                old(unused)@,
                final(unused)@,
                self.spec_decode(&Shape::Optional(Box::new(*inner))),
            ),
        decreases inner, 5int, 0int,
    {
        proof {
            reveal_with_fuel(decode, 2);
            assert(unused_views(unused@) =~= unused_views(unused@) + Seq::<UnusedKeyView>::empty());
        }
        let replaced = match self.maybe_apply_transformation() {
            Ok(r) => r,
            Err(e) => {
                return Err(e);
            },
        };
        let v = match &replaced {
            Some(w) => w,
            None => self.value,
        };
        match v {
            Value::Null(_) => Ok(Decoded::Optional(None)),
            _ => {
                let de = ValueRefDeserializer::new_with_transformed(
                    v,
                    self.path,
                    self.transformer,
                    self.should_transform,
                );
                match de.deserialize(inner, unused) {
                    Ok(d) => Ok(Decoded::Optional(Some(Box::new(d)))),
                    Err(e) => Err(e),
                }
            },
        }
    }

    /// Decodes the node into a struct around one value: the node is decoded
    /// into `inner` without being handed to the transformer a second time.
    pub fn deserialize_newtype_struct(self, inner: &Shape, unused: &mut Vec<UnusedKey>) -> (r:
        Result<Decoded, Error>)
        ensures
            agrees(
                r,
                old(unused)@,
                final(unused)@,
                self.spec_decode(&Shape::Newtype(Box::new(*inner))),
            ),
        decreases inner, 5int, 0int,
    {
        proof {
            reveal_with_fuel(decode, 2);
            assert(unused_views(unused@) =~= unused_views(unused@) + Seq::<UnusedKeyView>::empty());
        }
        let replaced = match self.maybe_apply_transformation() {
            Ok(r) => r,
            Err(e) => {
                return Err(e);
            },
        };
        let v = match &replaced {
            Some(w) => w,
            None => self.value,
        };
        let de = ValueRefDeserializer::new_with_transformed(
            v,
            self.path,
            self.transformer,
            self.should_transform,
        );
        de.deserialize(inner, unused)
    }

    /// Decodes the node into a sequence of values of the shape `elem`. Null
    /// is the empty sequence.
    pub fn deserialize_seq(self, elem: &Shape, unused: &mut Vec<UnusedKey>) -> (r: Result<
        Decoded,
        Error,
    >)
        ensures
            agrees(
                r,
                old(unused)@,
                final(unused)@,
                self.spec_decode(&Shape::Sequence(Box::new(*elem))),
            ),
        decreases elem, 5int, 0int,
    {
        proof {
            reveal_with_fuel(decode, 2);
            assert(unused_views(unused@) =~= unused_views(unused@) + Seq::<UnusedKeyView>::empty());
        }
        let replaced = match self.maybe_apply_transformation() {
            Ok(r) => r,
            Err(e) => {
                return Err(e);
            },
        };
        let v = match &replaced {
            Some(w) => w,
            None => self.value,
        };
        match v.untag_ref() {
            Value::Sequence(items, _) => visit_sequence_ref(
                items,
                self.path,
                elem,
                self.transformer,
                self.should_transform,
                unused,
            ),
            Value::Null(_) => {
                let empty: Vec<Decoded> = Vec::new();
                assert(decoded_views(empty@) =~= Seq::<DecodedView>::empty());
                Ok(Decoded::Sequence(empty))
            },
            other => Err(invalid_type(other, String::from_str("a sequence"))),
        }
    }

    /// Decodes the node into a tuple: a sequence with one element for each
    /// of `shapes`.
    pub fn deserialize_tuple(self, shapes: &Vec<Shape>, unused: &mut Vec<UnusedKey>) -> (r:
        Result<Decoded, Error>)
        ensures
            agrees(r, old(unused)@, final(unused)@, self.spec_decode(&Shape::Tuple(*shapes))),
        decreases shapes, 5int, 0int,
    {
        proof {
            reveal_with_fuel(decode, 2);
            assert(unused_views(unused@) =~= unused_views(unused@) + Seq::<UnusedKeyView>::empty());
        }
        let replaced = match self.maybe_apply_transformation() {
            Ok(r) => r,
            Err(e) => {
                return Err(e);
            },
        };
        let v = match &replaced {
            Some(w) => w,
            None => self.value,
        };
        let expected = {
            let mut s = String::from_str("a tuple of size ");
            s.append(crate::text::usize_to_decimal(shapes.len()).as_str());
            s
        };
        match v.untag_ref() {
            Value::Sequence(items, span) => visit_tuple_ref(
                items,
                self.path,
                shapes,
                expected.as_str(),
                *span,
                self.transformer,
                self.should_transform,
                unused,
            ),
            Value::Null(span) => {
                let empty: Vec<Value> = Vec::new();
                assert(views(empty@) =~= Seq::<ValueView>::empty());
                visit_tuple_ref(
                    &empty,
                    self.path,
                    shapes,
                    expected.as_str(),
                    *span,
                    self.transformer,
                    self.should_transform,
                    unused,
                )
            },
            other => Err(invalid_type(other, expected)),
        }
    }

    /// Decodes the node into a map. Null is the empty map.
    pub fn deserialize_map(self, m: &MapShape, unused: &mut Vec<UnusedKey>) -> (r: Result<
        Decoded,
        Error,
    >)
        ensures
            agrees(
                r,
                old(unused)@,
                final(unused)@,
                self.spec_decode(&Shape::Mapping(Box::new(*m))),
            ),
        decreases m, 5int, 0int,
    {
        proof {
            reveal_with_fuel(decode, 2);
            assert(unused_views(unused@) =~= unused_views(unused@) + Seq::<UnusedKeyView>::empty());
        }
        let replaced = match self.maybe_apply_transformation() {
            Ok(r) => r,
            Err(e) => {
                return Err(e);
            },
        };
        let v = match &replaced {
            Some(w) => w,
            None => self.value,
        };
        match v.untag_ref() {
            Value::Mapping(map, _) => visit_mapping_ref(
                map.entries(),
                self.path,
                m,
                self.transformer,
                self.should_transform,
                unused,
            ),
            Value::Null(_) => {
                let empty: Vec<(Decoded, Decoded)> = Vec::new();
                assert(decoded_pair_views(empty@) =~= Seq::<(DecodedView, DecodedView)>::empty());
                Ok(Decoded::Mapping(empty))
            },
            other => Err(invalid_type(other, String::from_str("a map"))),
        }
    }

    /// Decodes the node into a struct. Null is the mapping without entries.
    pub fn deserialize_struct(self, s: &'v StructShape, unused: &mut Vec<UnusedKey>) -> (r:
        Result<Decoded, Error>)
        ensures
            agrees(r, old(unused)@, final(unused)@, self.spec_decode(&Shape::Struct(*s))),
        decreases s, 5int, 0int,
    {
        proof {
            reveal_with_fuel(decode, 2);
            assert(unused_views(unused@) =~= unused_views(unused@) + Seq::<UnusedKeyView>::empty());
        }
        let replaced = match self.maybe_apply_transformation() {
            Ok(r) => r,
            Err(e) => {
                return Err(e);
            },
        };
        let v = match &replaced {
            Some(w) => w,
            None => self.value,
        };
        let expected = {
            let mut text = String::from_str("struct ");
            text.append(s.name.as_str());
            text
        };
        match v.untag_ref() {
            Value::Mapping(map, span) => {
                match visit_struct_ref(
                    map.entries(),
                    s,
                    self.path,
                    *span,
                    self.transformer,
                    self.should_transform,
                    false,
                    unused,
                ) {
                    Ok(pair) => Ok(pair.0),
                    Err(e) => Err(e),
                }
            },
            Value::Null(span) => {
                let empty: Vec<(Value, Value)> = Vec::new();
                assert(pair_views(empty@) =~= Seq::<(ValueView, ValueView)>::empty());
                match visit_struct_ref(
                    &empty,
                    s,
                    self.path,
                    *span,
                    self.transformer,
                    self.should_transform,
                    false,
                    unused,
                ) {
                    Ok(pair) => Ok(pair.0),
                    Err(e) => Err(e),
                }
            },
            other => Err(invalid_type(other, expected)),
        }
    }

    /// Decodes the node into an enum: a tagged node gives the variant by its
    /// tag and the payload by the node under the tag; a text gives a variant
    /// without payload by its name.
    pub fn deserialize_enum(self, e: &'v EnumShape, unused: &mut Vec<UnusedKey>) -> (r: Result<
        Decoded,
        Error,
    >)
        ensures
            agrees(r, old(unused)@, final(unused)@, self.spec_decode(&Shape::Enum(*e))),
        decreases e, 5int, 0int,
    {
        proof {
            reveal_with_fuel(decode, 2);
            assert(unused_views(unused@) =~= unused_views(unused@) + Seq::<UnusedKeyView>::empty());
        }
        let replaced = match self.maybe_apply_transformation() {
            Ok(r) => r,
            Err(err) => {
                return Err(err);
            },
        };
        let v = match &replaced {
            Some(w) => w,
            None => self.value,
        };
        match v {
            Value::Tagged(tagged, span) => {
                let de = EnumRefDeserializer {
                    tag: nobang(tagged.tag.as_str()),
                    value: Some(&tagged.value),
                    path: self.path,
                    span: *span,
                    transformer: self.transformer,
                    should_transform: self.should_transform,
                };
                de.deserialize_variant(e, unused)
            },
            Value::String(name, span) => {
                let de = EnumRefDeserializer {
                    tag: name.as_str(),
                    value: None,
                    path: self.path,
                    span: *span,
                    transformer: self.transformer,
                    should_transform: self.should_transform,
                };
                de.deserialize_variant(e, unused)
            },
            other => Err(invalid_type(other, String::from_str("a Value::Tagged enum"))),
        }
    }
}

} // verus!
