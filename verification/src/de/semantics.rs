//! What decoding means: for each node, shape, transformer and setting of the
//! apply-transform flag, the decoded value or the error, and the reports of
//! unused keys in the order in which they are made.

use crate::de::{FieldTransformer, UnusedKeyView};
use crate::decoded::DecodedView;
use crate::error::{spec_unexpected_of, ErrorKindView, ErrorView, UnexpectedView};
use crate::number::Number;
use crate::path::PathView;
use crate::shape::{
    field_position, has_flatten_from, is_flatten_field, lemma_field_position,
    lemma_variant_position, variant_names, variant_position, EnumShape, Field, IntKind, MapShape,
    Payload, Shape, StructShape,
};
use crate::shouldbe::WhyNotView;
use crate::span::Span;
use crate::text::{spec_is_flatten_key, spec_nobang};
use crate::value::{spec_collect, ValueView};
use vstd::prelude::*;
use vstd::utf8::encode_utf8;

verus! {

/// The result of a decode step and the reports of unused keys that the step
/// made, whether it succeeded or not.
pub ghost struct Out<T> {
    pub result: Result<T, ErrorView>,
    pub unused: Seq<UnusedKeyView>,
}

/// What a whole decode of one node gives.
pub type Outcome = Out<DecodedView>;

/// The error for a node of the wrong kind.
pub open spec fn type_error(v: ValueView, expected: Seq<char>) -> ErrorView {
    ErrorView {
        kind: ErrorKindView::InvalidType { unexpected: spec_unexpected_of(v), expected },
        span: v.span(),
    }
}

/// The node that is decoded in place of `v`: what the transformer makes of
/// `v` where the apply-transform flag is on and `v` has not been through the
/// transformer already, and `v` itself otherwise.
pub open spec fn transformed<F: FieldTransformer>(t: &F, v: ValueView, on: bool, done: bool)
    -> Result<ValueView, ErrorView> {
    if on && !done {
        match t.spec_transform(v) {
            Ok(Some(r)) => Ok(r),
            Ok(None) => Ok(v),
            Err(msg) => Err(transform_error(msg, v)),
        }
    } else {
        Ok(v)
    }
}

/// A number as an integer of the given type: the number itself where the
/// type can hold it, an error of value where it cannot, and an error of type
/// for a float.
pub open spec fn int_from(n: Number, kind: IntKind, span: Span) -> Result<DecodedView, ErrorView> {
    match n {
        Number::Unsigned(u) => if u <= kind.spec_max() {
            Ok(
                if kind.spec_is_signed() {
                    DecodedView::Signed(u as i64)
                } else {
                    DecodedView::Unsigned(u)
                },
            )
        } else {
            Err(
                ErrorView {
                    kind: ErrorKindView::InvalidValue {
                        unexpected: UnexpectedView::Unsigned(u),
                        expected: kind.spec_name(),
                    },
                    span,
                },
            )
        },
        Number::Signed(i) => if kind.spec_min() <= i <= kind.spec_max() {
            Ok(
                if kind.spec_is_signed() {
                    DecodedView::Signed(i)
                } else {
                    DecodedView::Unsigned(i as u64)
                },
            )
        } else {
            Err(
                ErrorView {
                    kind: ErrorKindView::InvalidValue {
                        unexpected: UnexpectedView::Signed(i),
                        expected: kind.spec_name(),
                    },
                    span,
                },
            )
        },
        Number::Float(bits) => Err(
            ErrorView {
                kind: ErrorKindView::InvalidType {
                    unexpected: UnexpectedView::Float(bits),
                    expected: kind.spec_name(),
                },
                span,
            },
        ),
    }
}

/// What a field receives when its key is absent from the mapping: an
/// optional field is empty, a verbatim field records the absence if what it
/// wraps could be absent, a field that may fail records the failure, and
/// any other field is an error.
pub open spec fn decode_missing(shape: &Shape, name: Seq<char>, span: Span) -> Result<
    DecodedView,
    ErrorView,
>
    decreases shape,
{
    match shape {
        Shape::Optional(_) => Ok(DecodedView::Optional(None)),
        Shape::Verbatim(inner) => match decode_missing(inner, name, span) {
            Ok(_) => Ok(DecodedView::Verbatim(None)),
            Err(e) => Err(e),
        },
        Shape::VerbatimLegacy(inner) => match decode_missing(inner, name, span) {
            Ok(d) => Ok(DecodedView::VerbatimLegacy(Box::new(d))),
            Err(e) => Err(e),
        },
        Shape::ShouldBe(inner) => match decode_missing(inner, name, span) {
            Ok(d) => Ok(DecodedView::AndIs(Box::new(d))),
            Err(e) => Ok(DecodedView::ButIsnt(None, WhyNotView::Original(e))),
        },
        Shape::Spanned(inner) => match decode_missing(inner, name, span) {
            Ok(d) => Ok(DecodedView::Spanned(Span::spec_zero(), Box::new(d))),
            Err(e) => Err(e),
        },
        _ => Err(ErrorView { kind: ErrorKindView::MissingField(name), span }),
    }
}

/// How the scan of a mapping treats a key.
pub ghost enum KeyClass {
    /// The key names the field at this position.
    Field(int),
    /// The key goes to the pool from which the catch-all fields are decoded.
    Deferred,
    /// No field takes the key.
    Unmatched,
    /// The key is not a text.
    NotText,
}

/// Classifies a key of a mapping against the fields of a struct: a key that
/// looks like the name of a catch-all field is deferred; a key that names a
/// field goes to that field; any other key is deferred if the struct has a
/// catch-all field, and unmatched if it has none.
pub open spec fn classify(key: ValueView, fields: Seq<Field>) -> KeyClass {
    match key {
        ValueView::String(s, _) => if spec_is_flatten_key(s) {
            KeyClass::Deferred
        } else if field_position(fields, s) < fields.len() {
            KeyClass::Field(field_position(fields, s))
        } else if has_flatten_from(fields, 0) {
            KeyClass::Deferred
        } else {
            KeyClass::Unmatched
        },
        _ => KeyClass::NotText,
    }
}

/// The path of the value under `key`.
pub open spec fn child_path(path: PathView, key: ValueView) -> PathView {
    match key {
        ValueView::String(s, _) => path.under(s),
        _ => path.unknown(),
    }
}

/// The state of a struct that is being decoded.
pub ghost struct StructState {
    /// For each field, what it has received so far.
    pub slots: Seq<Option<DecodedView>>,
    /// The entries that wait for the catch-all fields.
    pub rest: Seq<(ValueView, ValueView)>,
    /// The entries that no field took, where they are handed back instead of
    /// reported.
    pub leftover: Seq<(ValueView, ValueView)>,
}

/// The outcome of a sequence decode as the outcome of a node decode.
pub open spec fn as_sequence(o: Out<Seq<DecodedView>>) -> Outcome {
    Out {
        result: match o.result {
            Ok(ds) => Ok(DecodedView::Sequence(ds)),
            Err(e) => Err(e),
        },
        unused: o.unused,
    }
}

/// The outcome of a map decode as the outcome of a node decode.
pub open spec fn as_mapping(o: Out<Seq<(DecodedView, DecodedView)>>) -> Outcome {
    Out {
        result: match o.result {
            Ok(ps) => Ok(DecodedView::Mapping(ps)),
            Err(e) => Err(e),
        },
        unused: o.unused,
    }
}

/// The outcome of a struct decode as the outcome of a node decode: the
/// struct, without the entries that were collected.
pub open spec fn as_struct(o: Out<(DecodedView, Seq<(ValueView, ValueView)>)>) -> Outcome {
    Out {
        result: match o.result {
            Ok(r) => Ok(r.0),
            Err(e) => Err(e),
        },
        unused: o.unused,
    }
}

/// The outcome of a payload decode as the outcome of a variant decode.
pub open spec fn as_variant(name: Seq<char>, o: Outcome) -> Outcome {
    Out {
        result: match o.result {
            Ok(d) => Ok(DecodedView::Variant(name, Box::new(d))),
            Err(e) => Err(e),
        },
        unused: o.unused,
    }
}

/// An outcome that reports no key.
pub open spec fn quiet(result: Result<DecodedView, ErrorView>) -> Outcome {
    Out { result, unused: Seq::empty() }
}

/// The error for a variant that was given without a payload where it
/// carries one.
pub open spec fn bare_variant_error(expected: Seq<char>, span: Span) -> ErrorView {
    ErrorView {
        kind: ErrorKindView::InvalidType { unexpected: UnexpectedView::UnitVariant, expected },
        span,
    }
}

/// The error for a sequence or mapping of the wrong length.
pub open spec fn length_error(len: usize, expected: Seq<char>, span: Span) -> ErrorView {
    ErrorView { kind: ErrorKindView::InvalidLength { len, expected }, span }
}

/// The error that the transformer raised at the node `v`.
pub open spec fn transform_error(msg: Seq<char>, v: ValueView) -> ErrorView {
    ErrorView { kind: ErrorKindView::External(msg), span: v.span() }
}

/// The tree that a decode into a node gives: every node is handed to the
/// transformer, from the root down. A node that the transformer replaces is
/// taken as the transformer gave it; a node that it keeps is rebuilt from
/// its children, each treated the same way. The keys of a mapping are kept
/// as they are.
pub open spec fn rebuild<F: FieldTransformer>(t: &F, v: ValueView, on: bool, done: bool) -> Result<
    ValueView,
    ErrorView,
>
    decreases v, 1int,
{
    if on && !done {
        match t.spec_transform(v) {
            Err(msg) => Err(transform_error(msg, v)),
            Ok(Some(r)) => Ok(r),
            Ok(None) => rebuild_children(t, v, on),
        }
    } else {
        rebuild_children(t, v, on)
    }
}

/// The node `v` with each of its children rebuilt.
pub open spec fn rebuild_children<F: FieldTransformer>(t: &F, v: ValueView, on: bool) -> Result<
    ValueView,
    ErrorView,
>
    decreases v, 0int,
{
    match v {
        ValueView::Sequence(items, span) => match rebuild_items(t, items, on, 0, Seq::empty()) {
            Ok(rebuilt) => Ok(ValueView::Sequence(rebuilt, span)),
            Err(e) => Err(e),
        },
        ValueView::Mapping(entries, span) => match rebuild_entries(
            t,
            entries,
            on,
            0,
            Seq::empty(),
        ) {
            Ok(rebuilt) => Ok(ValueView::Mapping(rebuilt, span)),
            Err(e) => Err(e),
        },
        ValueView::Tagged(tag, inner, span) => match rebuild(t, *inner, on, false) {
            Ok(rebuilt) => Ok(ValueView::Tagged(tag, Box::new(rebuilt), span)),
            Err(e) => Err(e),
        },
        _ => Ok(v),
    }
}

/// The items of a sequence from position `i` on, rebuilt and added to
/// `acc`.
pub open spec fn rebuild_items<F: FieldTransformer>(
    t: &F,
    items: Seq<ValueView>,
    on: bool,
    i: int,
    acc: Seq<ValueView>,
) -> Result<Seq<ValueView>, ErrorView>
    decreases items, items.len() - i,
{
    if i < 0 || i >= items.len() {
        Ok(acc)
    } else {
        match rebuild(t, items[i], on, false) {
            Ok(rebuilt) => rebuild_items(t, items, on, i + 1, acc.push(rebuilt)),
            Err(e) => Err(e),
        }
    }
}

/// The entries of a mapping from position `i` on, each with its value
/// rebuilt, added to `acc`.
pub open spec fn rebuild_entries<F: FieldTransformer>(
    t: &F,
    entries: Seq<(ValueView, ValueView)>,
    on: bool,
    i: int,
    acc: Seq<(ValueView, ValueView)>,
) -> Result<Seq<(ValueView, ValueView)>, ErrorView>
    decreases entries, entries.len() - i,
{
    if i < 0 || i >= entries.len() {
        Ok(acc)
    } else {
        match rebuild(t, entries[i].1, on, false) {
            Ok(rebuilt) => rebuild_entries(
                t,
                entries,
                on,
                i + 1,
                acc.push((entries[i].0, rebuilt)),
            ),
            Err(e) => Err(e),
        }
    }
}

/// The outcome of a decode into a node.
pub open spec fn as_value(r: Result<ValueView, ErrorView>) -> Outcome {
    quiet(
        match r {
            Ok(v) => Ok(DecodedView::Value(v)),
            Err(e) => Err(e),
        },
    )
}

/// A node as a byte: the node that the transformer makes of it has to be a
/// number from 0 to 255.
pub open spec fn byte_from<F: FieldTransformer>(t: &F, v: ValueView, on: bool) -> Result<
    u8,
    ErrorView,
> {
    match transformed(t, v, on, false) {
        Err(e) => Err(e),
        Ok(w) => match w.untag() {
            ValueView::Number(n, span) => match int_from(n, IntKind::U8, span) {
                Ok(d) => Ok(d->Unsigned_0 as u8),
                Err(e) => Err(e),
            },
            other => Err(type_error(other, IntKind::U8.spec_name())),
        },
    }
}

/// The items of a sequence from position `i` on as bytes, added to `acc`.
pub open spec fn byte_items<F: FieldTransformer>(
    t: &F,
    items: Seq<ValueView>,
    on: bool,
    i: int,
    acc: Seq<u8>,
) -> Result<Seq<u8>, ErrorView>
    decreases items.len() - i,
{
    if i < 0 || i >= items.len() {
        Ok(acc)
    } else {
        match byte_from(t, items[i], on) {
            Ok(b) => byte_items(t, items, on, i + 1, acc.push(b)),
            Err(e) => Err(e),
        }
    }
}

/// The outcome of a decode into a string of bytes.
pub open spec fn as_bytes(r: Result<Seq<u8>, ErrorView>) -> Outcome {
    quiet(
        match r {
            Ok(b) => Ok(DecodedView::Bytes(b)),
            Err(e) => Err(e),
        },
    )
}

/// Decodes the node `v` into `shape`.
///
/// `on` is the apply-transform flag, `done` says that `v` has been through
/// the transformer already, and `path` is the position of `v`.
pub open spec fn decode<F: FieldTransformer>(
    t: &F,
    v: ValueView,
    shape: &Shape,
    on: bool,
    done: bool,
    path: PathView,
) -> Outcome
    decreases shape, 3int, 0int,
{
    match shape {
        Shape::Verbatim(_) => quiet(Ok(DecodedView::Verbatim(Some(v)))),
        Shape::Ignored => quiet(Ok(DecodedView::Unit)),
        Shape::Any => as_value(rebuild(t, v, on, done)),
        Shape::VerbatimLegacy(inner) => {
            let o = decode(t, v, inner, false, done, path);
            match o.result {
                Ok(d) => Out {
                    result: Ok(DecodedView::VerbatimLegacy(Box::new(d))),
                    unused: o.unused,
                },
                Err(e) => Out { result: Err(e), unused: o.unused },
            }
        },
        Shape::ShouldBe(inner) => {
            let o = decode(t, v, inner, on, done, path);
            match o.result {
                Ok(d) => Out { result: Ok(DecodedView::AndIs(Box::new(d))), unused: o.unused },
                Err(e) => Out {
                    result: Ok(DecodedView::ButIsnt(Some(v), WhyNotView::Original(e))),
                    unused: o.unused,
                },
            }
        },
        Shape::Spanned(inner) => {
            let o = decode(t, v, inner, on, done, path);
            match o.result {
                Ok(d) => Out {
                    result: Ok(DecodedView::Spanned(v.span(), Box::new(d))),
                    unused: o.unused,
                },
                Err(e) => Out { result: Err(e), unused: o.unused },
            }
        },
        _ => match transformed(t, v, on, done) {
            Err(e) => Out { result: Err(e), unused: Seq::empty() },
            Ok(w) => decode_node(t, w, shape, on, path),
        },
    }
}

/// Decodes a node that has been through the transformer into a shape that
/// is not a wrapper.
pub open spec fn decode_node<F: FieldTransformer>(
    t: &F,
    v: ValueView,
    shape: &Shape,
    on: bool,
    path: PathView,
) -> Outcome
    decreases shape, 2int, 0int,
{
    let none = Seq::<UnusedKeyView>::empty();
    match shape {
        Shape::Unit => match v {
            ValueView::Null(_) => quiet(Ok(DecodedView::Unit)),
            _ => quiet(Err(type_error(v, shape.spec_expecting()))),
        },
        Shape::Bool => match v.untag() {
            ValueView::Bool(b, _) => quiet(Ok(DecodedView::Bool(b))),
            other => quiet(Err(type_error(other, shape.spec_expecting()))),
        },
        Shape::Int(kind) => match v.untag() {
            ValueView::Number(n, span) => quiet(int_from(n, *kind, span)),
            other => quiet(Err(type_error(other, shape.spec_expecting()))),
        },
        Shape::Float => match v.untag() {
            ValueView::Number(n, _) => quiet(Ok(DecodedView::Float(n))),
            other => quiet(Err(type_error(other, shape.spec_expecting()))),
        },
        Shape::Str => match v.untag() {
            ValueView::String(s, _) => quiet(Ok(DecodedView::Str(s))),
            other => quiet(Err(type_error(other, shape.spec_expecting()))),
        },
        Shape::Char => match v.untag() {
            ValueView::String(s, span) => if s.len() == 1 {
                quiet(Ok(DecodedView::Char(s[0])))
            } else {
                quiet(
                    Err(
                        ErrorView {
                            kind: ErrorKindView::InvalidValue {
                                unexpected: UnexpectedView::Str(s),
                                expected: shape.spec_expecting(),
                            },
                            span,
                        },
                    ),
                )
            },
            other => quiet(Err(type_error(other, shape.spec_expecting()))),
        },
        Shape::Bytes => match v.untag() {
            ValueView::String(s, _) => quiet(Ok(DecodedView::Bytes(encode_utf8(s)))),
            ValueView::Sequence(items, _) => as_bytes(byte_items(t, items, on, 0, Seq::empty())),
            other => quiet(Err(type_error(other, shape.spec_expecting()))),
        },
        Shape::Any => quiet(Ok(DecodedView::Value(v))),
        Shape::Optional(inner) => match v {
            ValueView::Null(_) => quiet(Ok(DecodedView::Optional(None))),
            _ => {
                let o = decode(t, v, inner, on, true, path);
                match o.result {
                    Ok(d) => Out {
                        result: Ok(DecodedView::Optional(Some(Box::new(d)))),
                        unused: o.unused,
                    },
                    Err(e) => Out { result: Err(e), unused: o.unused },
                }
            },
        },
        Shape::Newtype(inner) => decode(t, v, inner, on, true, path),
        Shape::Sequence(elem) => match v.untag() {
            ValueView::Sequence(items, _) => as_sequence(
                seq_items(t, items, elem, on, path, 0, Seq::empty(), none),
            ),
            ValueView::Null(_) => quiet(Ok(DecodedView::Sequence(Seq::empty()))),
            other => quiet(Err(type_error(other, shape.spec_expecting()))),
        },
        Shape::Tuple(shapes) => match v.untag() {
            ValueView::Sequence(items, span) => as_sequence(
                tuple_items(
                    t,
                    items,
                    shapes,
                    shape.spec_expecting(),
                    on,
                    path,
                    span,
                    0,
                    Seq::empty(),
                    none,
                ),
            ),
            ValueView::Null(span) => as_sequence(
                tuple_items(
                    t,
                    Seq::empty(),
                    shapes,
                    shape.spec_expecting(),
                    on,
                    path,
                    span,
                    0,
                    Seq::empty(),
                    none,
                ),
            ),
            other => quiet(Err(type_error(other, shape.spec_expecting()))),
        },
        Shape::Mapping(m) => match v.untag() {
            ValueView::Mapping(entries, _) => as_mapping(
                map_entries(t, entries, m, on, path, 0, Seq::empty(), none),
            ),
            ValueView::Null(_) => quiet(Ok(DecodedView::Mapping(Seq::empty()))),
            other => quiet(Err(type_error(other, shape.spec_expecting()))),
        },
        Shape::Struct(s) => match v.untag() {
            ValueView::Mapping(entries, span) => as_struct(
                struct_decode(t, entries, s, on, false, path, span),
            ),
            ValueView::Null(span) => as_struct(
                struct_decode(t, Seq::empty(), s, on, false, path, span),
            ),
            other => quiet(Err(type_error(other, shape.spec_expecting()))),
        },
        Shape::Enum(e) => match v {
            ValueView::Tagged(tag, inner, span) => variant_decode(
                t,
                spec_nobang(tag),
                Some(*inner),
                e,
                on,
                path,
                span,
            ),
            ValueView::String(s, span) => variant_decode(t, s, None, e, on, path, span),
            other => quiet(Err(type_error(other, "a Value::Tagged enum"@))),
        },
        _ => quiet(Ok(DecodedView::Unit)),
    }
}

/// Decodes the items of a sequence from position `i` on, each into `elem`,
/// and adds what they give to `acc` and `unused`. The first error ends the
/// decode.
pub open spec fn seq_items<F: FieldTransformer>(
    t: &F,
    items: Seq<ValueView>,
    elem: &Shape,
    on: bool,
    path: PathView,
    i: int,
    acc: Seq<DecodedView>,
    unused: Seq<UnusedKeyView>,
) -> Out<Seq<DecodedView>>
    decreases elem, 4int, items.len() - i,
{
    if i < 0 || i >= items.len() {
        Out { result: Ok(acc), unused }
    } else {
        let o = decode(t, items[i], elem, on, false, path.at(i as usize));
        match o.result {
            Err(e) => Out { result: Err(e), unused: unused + o.unused },
            Ok(d) => seq_items(t, items, elem, on, path, i + 1, acc.push(d), unused + o.unused),
        }
    }
}

/// Decodes the items of a sequence into the shapes of a tuple, from position
/// `i` on. A sequence that is too short or too long is an error of length.
pub open spec fn tuple_items<F: FieldTransformer>(
    t: &F,
    items: Seq<ValueView>,
    shapes: &Vec<Shape>,
    expected: Seq<char>,
    on: bool,
    path: PathView,
    span: Span,
    i: int,
    acc: Seq<DecodedView>,
    unused: Seq<UnusedKeyView>,
) -> Out<Seq<DecodedView>>
    decreases shapes, 1int, shapes.len() - i,
{
    if i < 0 || i >= shapes.len() {
        if items.len() > shapes.len() {
            Out {
                result: Err(
                    length_error(items.len() as usize, "fewer elements in sequence"@, span),
                ),
                unused,
            }
        } else {
            Out { result: Ok(acc), unused }
        }
    } else if i >= items.len() {
        Out { result: Err(length_error(i as usize, expected, span)), unused }
    } else {
        let o = decode(t, items[i], &shapes[i], on, false, path.at(i as usize));
        match o.result {
            Err(e) => Out { result: Err(e), unused: unused + o.unused },
            Ok(d) => tuple_items(
                t,
                items,
                shapes,
                expected,
                on,
                path,
                span,
                i + 1,
                acc.push(d),
                unused + o.unused,
            ),
        }
    }
}

/// Decodes the entries of a mapping into the keys and values of a map, from
/// position `i` on. Keys are decoded with the transformer switched off.
pub open spec fn map_entries<F: FieldTransformer>(
    t: &F,
    entries: Seq<(ValueView, ValueView)>,
    m: &MapShape,
    on: bool,
    path: PathView,
    i: int,
    acc: Seq<(DecodedView, DecodedView)>,
    unused: Seq<UnusedKeyView>,
) -> Out<Seq<(DecodedView, DecodedView)>>
    decreases m, 1int, entries.len() - i,
{
    if i < 0 || i >= entries.len() {
        Out { result: Ok(acc), unused }
    } else {
        let k = decode(t, entries[i].0, &m.key, false, false, PathView::Root);
        match k.result {
            Err(e) => Out { result: Err(e), unused: unused + k.unused },
            Ok(kd) => {
                let below = child_path(path, entries[i].0);
                let o = decode(t, entries[i].1, &m.value, on, false, below);
                match o.result {
                    Err(e) => Out { result: Err(e), unused: unused + k.unused + o.unused },
                    Ok(vd) => map_entries(
                        t,
                        entries,
                        m,
                        on,
                        path,
                        i + 1,
                        acc.push((kd, vd)),
                        unused + k.unused + o.unused,
                    ),
                }
            },
        }
    }
}

/// Hands the entries of a mapping to the fields of a struct, from position
/// `i` on.
///
/// Where `collect` is set, an entry that no field takes is kept in the state;
/// otherwise it is reported as unused.
pub open spec fn struct_scan<F: FieldTransformer>(
    t: &F,
    entries: Seq<(ValueView, ValueView)>,
    s: &StructShape,
    on: bool,
    collect: bool,
    path: PathView,
    span: Span,
    i: int,
    st: StructState,
    unused: Seq<UnusedKeyView>,
) -> Out<StructState>
    decreases s, 1int, entries.len() - i,
{
    if i < 0 || i >= entries.len() {
        Out { result: Ok(st), unused }
    } else {
        let key = entries[i].0;
        let value = entries[i].1;
        match classify(key, s.fields@) {
            KeyClass::Deferred => struct_scan(
                t,
                entries,
                s,
                on,
                collect,
                path,
                span,
                i + 1,
                StructState { rest: st.rest.push(entries[i]), ..st },
                unused,
            ),
            KeyClass::Unmatched => if collect {
                struct_scan(
                    t,
                    entries,
                    s,
                    on,
                    collect,
                    path,
                    span,
                    i + 1,
                    StructState { leftover: st.leftover.push(entries[i]), ..st },
                    unused,
                )
            } else {
                struct_scan(
                    t,
                    entries,
                    s,
                    on,
                    collect,
                    path,
                    span,
                    i + 1,
                    st,
                    unused.push(
                        UnusedKeyView { path: child_path(path, key).render(), key, value },
                    ),
                )
            },
            KeyClass::NotText => Out {
                result: Err(type_error(key, "field identifier"@)),
                unused,
            },
            KeyClass::Field(f) => if st.slots[f] is Some {
                Out {
                    result: Err(
                        ErrorView { kind: ErrorKindView::DuplicateField(s.fields[f].name@), span },
                    ),
                    unused,
                }
            } else {
                proof {
                    if key is String {
                        lemma_field_position(s.fields@, key->String_0);
                    }
                }
                let o = decode(t, value, &s.fields[f].shape, on, false, child_path(path, key));
                match o.result {
                    Err(e) => Out { result: Err(e), unused: unused + o.unused },
                    Ok(d) => struct_scan(
                        t,
                        entries,
                        s,
                        on,
                        collect,
                        path,
                        span,
                        i + 1,
                        StructState { slots: st.slots.update(f, Some(d)), ..st },
                        unused + o.unused,
                    ),
                }
            },
        }
    }
}

/// Decodes the catch-all fields of a struct from the pool of deferred
/// entries, from the field at position `k` on.
///
/// A catch-all field that is a struct and is followed by another catch-all
/// field takes the entries that it has fields for and hands the others on;
/// any other catch-all field takes the whole pool.
pub open spec fn struct_flatten<F: FieldTransformer>(
    t: &F,
    s: &StructShape,
    on: bool,
    path: PathView,
    k: int,
    st: StructState,
    unused: Seq<UnusedKeyView>,
) -> Out<StructState>
    decreases s, 1int, s.fields.len() - k,
{
    if k < 0 || k >= s.fields.len() {
        Out { result: Ok(st), unused }
    } else if !is_flatten_field(s.fields[k]) {
        struct_flatten(t, s, on, path, k + 1, st, unused)
    } else {
        let below = path.under(s.fields[k].name@);
        match &s.fields[k].shape {
            Shape::Struct(inner) if has_flatten_from(s.fields@, k + 1) => {
                let o = struct_decode(
                    t,
                    spec_collect(st.rest),
                    inner,
                    on,
                    true,
                    below,
                    Span::spec_zero(),
                );
                match o.result {
                    Err(e) => Out { result: Err(e), unused: unused + o.unused },
                    Ok(r) => struct_flatten(
                        t,
                        s,
                        on,
                        path,
                        k + 1,
                        StructState { slots: st.slots.update(k, Some(r.0)), rest: r.1, ..st },
                        unused + o.unused,
                    ),
                }
            },
            shape => {
                let o = decode(
                    t,
                    ValueView::Mapping(spec_collect(st.rest), Span::spec_zero()),
                    shape,
                    on,
                    false,
                    below,
                );
                match o.result {
                    Err(e) => Out { result: Err(e), unused: unused + o.unused },
                    Ok(d) => struct_flatten(
                        t,
                        s,
                        on,
                        path,
                        k + 1,
                        StructState {
                            slots: st.slots.update(k, Some(d)),
                            rest: Seq::empty(),
                            ..st
                        },
                        unused + o.unused,
                    ),
                }
            },
        }
    }
}

/// Gives each field that received nothing what an absent field receives,
/// from the field at position `k` on.
pub open spec fn struct_fill(
    s: &StructShape,
    span: Span,
    k: int,
    slots: Seq<Option<DecodedView>>,
    acc: Seq<DecodedView>,
) -> Result<Seq<DecodedView>, ErrorView>
    decreases s.fields.len() - k,
{
    if k < 0 || k >= s.fields.len() {
        Ok(acc)
    } else {
        match slots[k] {
            Some(d) => struct_fill(s, span, k + 1, slots, acc.push(d)),
            None => match decode_missing(&s.fields[k].shape, s.fields[k].name@, span) {
                Ok(d) => struct_fill(s, span, k + 1, slots, acc.push(d)),
                Err(e) => Err(e),
            },
        }
    }
}

/// The state of a struct before the first entry is scanned.
pub open spec fn empty_state(s: &StructShape) -> StructState {
    StructState {
        slots: Seq::new(s.fields.len() as nat, |k: int| None::<DecodedView>),
        rest: Seq::empty(),
        leftover: Seq::empty(),
    }
}

/// Decodes the entries of a mapping into a struct: the entries are handed to
/// the fields in the order of the document, then the catch-all fields are
/// decoded from the deferred entries, then the fields that received nothing
/// are given what an absent field receives. The result is the struct and the
/// entries that no field took, where those are collected.
pub open spec fn struct_decode<F: FieldTransformer>(
    t: &F,
    entries: Seq<(ValueView, ValueView)>,
    s: &StructShape,
    on: bool,
    collect: bool,
    path: PathView,
    span: Span,
) -> Out<(DecodedView, Seq<(ValueView, ValueView)>)>
    decreases s, 2int, 0int,
{
    let a = struct_scan(t, entries, s, on, collect, path, span, 0, empty_state(s), Seq::empty());
    match a.result {
        Err(e) => Out { result: Err(e), unused: a.unused },
        Ok(scanned) => {
            let b = struct_flatten(t, s, on, path, 0, scanned, a.unused);
            match b.result {
                Err(e) => Out { result: Err(e), unused: b.unused },
                Ok(st) => if st.rest.len() > 0 {
                    Out {
                        result: Err(
                            length_error(entries.len() as usize, "fewer elements in struct"@, span),
                        ),
                        unused: b.unused,
                    }
                } else {
                    match struct_fill(s, span, 0, st.slots, Seq::empty()) {
                        Err(e) => Out { result: Err(e), unused: b.unused },
                        Ok(fields) => Out {
                            result: Ok((DecodedView::Struct(fields), st.leftover)),
                            unused: b.unused,
                        },
                    }
                },
            }
        },
    }
}

/// Decodes what a variant carries from the node that the tag annotates, if
/// the variant was given by a tag.
pub open spec fn payload_decode<F: FieldTransformer>(
    t: &F,
    payload: Option<ValueView>,
    kind: &Payload,
    on: bool,
    path: PathView,
    span: Span,
) -> Outcome
    decreases kind, 1int, 0int,
{
    let none = Seq::<UnusedKeyView>::empty();
    match (kind, payload) {
        (Payload::Unit, None) => quiet(Ok(DecodedView::Unit)),
        (Payload::Unit, Some(ValueView::Null(_))) => quiet(Ok(DecodedView::Unit)),
        (Payload::Unit, Some(v)) => quiet(Err(type_error(v, "unit"@))),
        (Payload::Newtype(shape), Some(v)) => decode(t, v, shape, on, false, path),
        (Payload::Newtype(_), None) => quiet(Err(bare_variant_error("newtype variant"@, span))),
        (Payload::Tuple(shapes), Some(ValueView::Sequence(items, inner_span))) => as_sequence(
            tuple_items(
                t,
                items,
                shapes,
                "tuple variant"@,
                on,
                path,
                inner_span,
                0,
                Seq::empty(),
                none,
            ),
        ),
        (Payload::Tuple(_), Some(v)) => quiet(Err(type_error(v, "tuple variant"@))),
        (Payload::Tuple(_), None) => quiet(Err(bare_variant_error("tuple variant"@, span))),
        (Payload::Struct(s), Some(ValueView::Mapping(entries, inner_span))) => as_struct(
            struct_decode(t, entries, s, on, false, path, inner_span),
        ),
        (Payload::Struct(_), Some(v)) => quiet(Err(type_error(v, "struct variant"@))),
        (Payload::Struct(_), None) => quiet(Err(bare_variant_error("struct variant"@, span))),
    }
}

/// Decodes a variant of an enum: `name` selects the variant, and `payload`
/// is the node that the tag annotates, if the variant was given by a tag.
pub open spec fn variant_decode<F: FieldTransformer>(
    t: &F,
    name: Seq<char>,
    payload: Option<ValueView>,
    e: &EnumShape,
    on: bool,
    path: PathView,
    span: Span,
) -> Outcome
    decreases e, 1int, 0int,
{
    let p = variant_position(e.variants@, name);
    if p >= e.variants.len() {
        quiet(
            Err(
                ErrorView {
                    kind: ErrorKindView::UnknownVariant {
                        variant: name,
                        known: variant_names(e.variants@),
                    },
                    span,
                },
            ),
        )
    } else {
        proof {
            lemma_variant_position(e.variants@, name);
        }
        as_variant(
            e.variants[p].name@,
            payload_decode(t, payload, &e.variants[p].payload, on, path, span),
        )
    }
}

} // verus!
