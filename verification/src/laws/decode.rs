//! Laws of decoding: what the two ways of decoding have in common, what the
//! wrappers guarantee, and which keys are reported as unused.

use crate::de::outcome::{agrees, result_view};
use crate::de::semantics::{
    child_path, classify, decode, decode_missing, quiet, rebuild, rebuild_children,
    rebuild_entries, rebuild_items, struct_scan, transformed, KeyClass, StructState,
};
use crate::de::{unused_views, FieldTransformer, UnusedKey, UnusedKeyView};
use crate::decoded::{Decoded, DecodedView};
use crate::error::{Error, ErrorView};
use crate::laws::value::law_same_is_reflexive;
use crate::path::PathView;
use crate::shape::{has_flatten_from, lemma_field_position, Shape, StructShape};
use crate::shouldbe::WhyNotView;
use crate::span::Span;
use crate::value::{same, Value, ValueView};
use vstd::prelude::*;

verus! {

/// Decoding a document by value and decoding it by reference give the same
/// result and the same reports of unused keys.
pub proof fn law_consuming_equals_borrowing<F: FieldTransformer>(
    document: Value,
    shape: Shape,
    transformer: F,
    consumed: Result<Decoded, Error>,
    borrowed: Result<Decoded, Error>,
    sink: Seq<UnusedKey>,
    after_consuming: Seq<UnusedKey>,
    after_borrowing: Seq<UnusedKey>,
)
    requires
        agrees(consumed, sink, after_consuming, document.spec_typed(&shape, &transformer)),
        agrees(borrowed, sink, after_borrowing, document.spec_typed(&shape, &transformer)),
    ensures
        result_view(consumed) == result_view(borrowed),
        unused_views(after_consuming) == unused_views(after_borrowing),
{
}

/// A transformer that keeps every node leaves a tree as it is.
pub proof fn law_rebuild_keeps_tree<F: FieldTransformer>(
    transformer: F,
    v: ValueView,
    on: bool,
    done: bool,
)
    requires
        !on || forall|w: ValueView|
            #[trigger] transformer.spec_transform(w) == Ok::<Option<ValueView>, Seq<char>>(None),
    ensures
        rebuild(&transformer, v, on, done) == Ok::<ValueView, ErrorView>(v),
        rebuild_children(&transformer, v, on) == Ok::<ValueView, ErrorView>(v),
    decreases v, 1int,
{
    match v {
        ValueView::Sequence(items, _) => {
            lemma_rebuild_keeps_items(transformer, items, on, 0, Seq::empty());
            assert(Seq::<ValueView>::empty() + items.skip(0) =~= items);
        },
        ValueView::Mapping(entries, _) => {
            lemma_rebuild_keeps_entries(transformer, entries, on, 0, Seq::empty());
            assert(Seq::<(ValueView, ValueView)>::empty() + entries.skip(0) =~= entries);
        },
        ValueView::Tagged(_, inner, _) => {
            law_rebuild_keeps_tree(transformer, *inner, on, false);
        },
        _ => {},
    }
}

proof fn lemma_rebuild_keeps_items<F: FieldTransformer>(
    transformer: F,
    items: Seq<ValueView>,
    on: bool,
    i: int,
    acc: Seq<ValueView>,
)
    requires
        0 <= i <= items.len(),
        !on || forall|w: ValueView|
            #[trigger] transformer.spec_transform(w) == Ok::<Option<ValueView>, Seq<char>>(None),
    ensures
        rebuild_items(&transformer, items, on, i, acc) == Ok::<Seq<ValueView>, ErrorView>(
            acc + items.skip(i),
        ),
    decreases items, items.len() - i,
{
    if i < items.len() {
        law_rebuild_keeps_tree(transformer, items[i], on, false);
        lemma_rebuild_keeps_items(transformer, items, on, i + 1, acc.push(items[i]));
        assert(acc.push(items[i]) + items.skip(i + 1) =~= acc + items.skip(i));
    } else {
        assert(acc + items.skip(i) =~= acc);
    }
}

proof fn lemma_rebuild_keeps_entries<F: FieldTransformer>(
    transformer: F,
    entries: Seq<(ValueView, ValueView)>,
    on: bool,
    i: int,
    acc: Seq<(ValueView, ValueView)>,
)
    requires
        0 <= i <= entries.len(),
        !on || forall|w: ValueView|
            #[trigger] transformer.spec_transform(w) == Ok::<Option<ValueView>, Seq<char>>(None),
    ensures
        rebuild_entries(&transformer, entries, on, i, acc) == Ok::<
            Seq<(ValueView, ValueView)>,
            ErrorView,
        >(acc + entries.skip(i)),
    decreases entries, entries.len() - i,
{
    if i < entries.len() {
        law_rebuild_keeps_tree(transformer, entries[i].1, on, false);
        lemma_rebuild_keeps_entries(transformer, entries, on, i + 1, acc.push(entries[i]));
        assert(acc.push(entries[i]) + entries.skip(i + 1) =~= acc + entries.skip(i));
    } else {
        assert(acc + entries.skip(i) =~= acc);
    }
}

/// Decoding a document into a node gives the document back, if the
/// transformer keeps every node: the result is the input, spans and all, and
/// so equals it when spans are ignored.
pub proof fn law_identity_decode<F: FieldTransformer>(document: Value, transformer: F)
    requires
        forall|w: ValueView|
            #[trigger] transformer.spec_transform(w) == Ok::<Option<ValueView>, Seq<char>>(None),
    ensures
        document.spec_typed(&Shape::Any, &transformer) == quiet(
            Ok(DecodedView::Value(document@)),
        ),
        same(document@, document@),
{
    reveal_with_fuel(decode, 2);
    law_rebuild_keeps_tree(transformer, document@, true, false);
    law_same_is_reflexive(document@);
}

/// Decoding into a container that may fail never fails: where the inner
/// decode succeeds the container holds its result, and where it fails the
/// container holds the node as it was given and the error.
pub proof fn law_should_be_never_fails<F: FieldTransformer>(
    transformer: F,
    v: ValueView,
    inner: Shape,
    on: bool,
    done: bool,
    path: PathView,
)
    ensures
        ({
            let within = decode(&transformer, v, &inner, on, done, path);
            let wrapped = Shape::ShouldBe(Box::new(inner));
            let outcome = decode(&transformer, v, &wrapped, on, done, path);
            &&& outcome.unused == within.unused
            &&& outcome.result == match within.result {
                Ok(d) => Ok::<DecodedView, ErrorView>(DecodedView::AndIs(Box::new(d))),
                Err(e) => Ok::<DecodedView, ErrorView>(
                    DecodedView::ButIsnt(Some(v), WhyNotView::Original(e)),
                ),
            }
        }),
{
    reveal_with_fuel(decode, 2);
}

/// A value that is decoded with its span carries the span of the node that
/// it was decoded from, and is otherwise what the inner decode gives.
pub proof fn law_spanned_carries_the_span_of_its_node<F: FieldTransformer>(
    transformer: F,
    v: ValueView,
    inner: Shape,
    on: bool,
    done: bool,
    path: PathView,
)
    ensures
        ({
            let within = decode(&transformer, v, &inner, on, done, path);
            let outcome = decode(&transformer, v, &Shape::Spanned(Box::new(inner)), on, done, path);
            &&& outcome.unused == within.unused
            &&& outcome.result == match within.result {
                Ok(d) => Ok::<DecodedView, ErrorView>(DecodedView::Spanned(v.span(), Box::new(d))),
                Err(e) => Err::<DecodedView, ErrorView>(e),
            }
        }),
{
    reveal_with_fuel(decode, 2);
}

/// A node that is decoded verbatim is captured as it stands, whatever the
/// transformer would make of it and whether or not the apply-transform flag
/// is on.
pub proof fn law_verbatim_ignores_transformer<F: FieldTransformer>(
    transformer: F,
    v: ValueView,
    inner: Shape,
    on: bool,
    done: bool,
    path: PathView,
)
    ensures
        decode(&transformer, v, &Shape::Verbatim(Box::new(inner)), on, done, path) == quiet(
            Ok(DecodedView::Verbatim(Some(v))),
        ),
{
    reveal_with_fuel(decode, 2);
}

/// A verbatim field that is absent from its mapping records the absence,
/// where what it wraps could be absent, and that record differs from what a
/// present field gives, even a present null.
pub proof fn law_absent_verbatim_is_not_null<F: FieldTransformer>(
    transformer: F,
    present: ValueView,
    inner: Shape,
    name: Seq<char>,
    span: Span,
    on: bool,
    done: bool,
    path: PathView,
)
    requires
        decode_missing(&inner, name, span) is Ok,
    ensures
        decode_missing(&Shape::Verbatim(Box::new(inner)), name, span) == Ok::<
            DecodedView,
            ErrorView,
        >(DecodedView::Verbatim(None)),
        decode(&transformer, present, &Shape::Verbatim(Box::new(inner)), on, done, path).result
            != decode_missing(&Shape::Verbatim(Box::new(inner)), name, span),
{
    reveal_with_fuel(decode, 2);
    reveal_with_fuel(decode_missing, 2);
}

/// An optional field that is absent from its mapping is empty.
pub proof fn law_absent_optional_is_empty(inner: Shape, name: Seq<char>, span: Span)
    ensures
        decode_missing(&Shape::Optional(Box::new(inner)), name, span) == Ok::<
            DecodedView,
            ErrorView,
        >(DecodedView::Optional(None)),
{
}

/// Where a struct has a catch-all field, no key of the mapping is left
/// unmatched: a key either names a field or is deferred to the catch-all
/// field.
pub proof fn law_catch_all_takes_every_key(key: ValueView, s: StructShape)
    requires
        has_flatten_from(s.fields@, 0),
    ensures
        !(classify(key, s.fields@) is Unmatched),
{
}

/// A key that no field takes is reported exactly once: the scan of the
/// entry adds one report, for that key and its value at the path of the key,
/// and goes on to the next entry.
pub proof fn law_unused_key_is_reported_once<F: FieldTransformer>(
    transformer: F,
    entries: Seq<(ValueView, ValueView)>,
    s: StructShape,
    on: bool,
    path: PathView,
    span: Span,
    i: int,
    st: StructState,
    unused: Seq<UnusedKeyView>,
)
    requires
        0 <= i < entries.len(),
        classify(entries[i].0, s.fields@) is Unmatched,
    ensures
        struct_scan(&transformer, entries, &s, on, false, path, span, i, st, unused)
            == struct_scan(
            &transformer,
            entries,
            &s,
            on,
            false,
            path,
            span,
            i + 1,
            st,
            unused.push(
                UnusedKeyView {
                    path: child_path(path, entries[i].0).render(),
                    key: entries[i].0,
                    value: entries[i].1,
                },
            ),
        ),
{
}

/// A shape whose decode reports no key, whatever the node: a scalar, a node
/// that is kept or dropped, or a wrapper around such a shape.
pub open spec fn is_leaf(shape: &Shape) -> bool
    decreases shape,
{
    match shape {
        Shape::Unit => true,
        Shape::Bool => true,
        Shape::Int(_) => true,
        Shape::Float => true,
        Shape::Char => true,
        Shape::Str => true,
        Shape::Bytes => true,
        Shape::Any => true,
        Shape::Ignored => true,
        Shape::Verbatim(_) => true,
        Shape::Optional(inner) => is_leaf(inner),
        Shape::Newtype(inner) => is_leaf(inner),
        Shape::VerbatimLegacy(inner) => is_leaf(inner),
        Shape::ShouldBe(inner) => is_leaf(inner),
        Shape::Spanned(inner) => is_leaf(inner),
        _ => false,
    }
}

/// Decoding into a leaf shape reports no key.
pub proof fn law_leaf_reports_nothing<F: FieldTransformer>(
    transformer: F,
    v: ValueView,
    shape: Shape,
    on: bool,
    done: bool,
    path: PathView,
)
    requires
        is_leaf(&shape),
    ensures
        decode(&transformer, v, &shape, on, done, path).unused == Seq::<UnusedKeyView>::empty(),
    decreases shape,
{
    reveal_with_fuel(decode, 2);
    match shape {
        Shape::Optional(inner) => {
            match transformed(&transformer, v, on, done) {
                Ok(w) => {
                    law_leaf_reports_nothing(transformer, w, *inner, on, true, path);
                },
                Err(_) => {},
            }
        },
        Shape::Newtype(inner) => {
            match transformed(&transformer, v, on, done) {
                Ok(w) => {
                    law_leaf_reports_nothing(transformer, w, *inner, on, true, path);
                },
                Err(_) => {},
            }
        },
        Shape::VerbatimLegacy(inner) => {
            law_leaf_reports_nothing(transformer, v, *inner, false, done, path);
        },
        Shape::ShouldBe(inner) => {
            law_leaf_reports_nothing(transformer, v, *inner, on, done, path);
        },
        Shape::Spanned(inner) => {
            law_leaf_reports_nothing(transformer, v, *inner, on, done, path);
        },
        _ => {},
    }
}

/// The reports for the entries from position `i` on that no field of the
/// struct takes: one for each such entry, in the order of the document.
pub open spec fn unmatched_reports(
    entries: Seq<(ValueView, ValueView)>,
    s: &StructShape,
    path: PathView,
    i: int,
) -> Seq<UnusedKeyView>
    decreases entries.len() - i,
{
    if i < 0 || i >= entries.len() {
        Seq::empty()
    } else if classify(entries[i].0, s.fields@) is Unmatched {
        seq![
            UnusedKeyView {
                path: child_path(path, entries[i].0).render(),
                key: entries[i].0,
                value: entries[i].1,
            },
        ] + unmatched_reports(entries, s, path, i + 1)
    } else {
        unmatched_reports(entries, s, path, i + 1)
    }
}

/// Where every field of a struct has a leaf shape, a scan of a mapping that
/// succeeds reports exactly the keys that no field takes: each of them once,
/// in the order of the document, and nothing else.
pub proof fn law_unused_keys_are_reported_once<F: FieldTransformer>(
    transformer: F,
    entries: Seq<(ValueView, ValueView)>,
    s: StructShape,
    on: bool,
    path: PathView,
    span: Span,
    i: int,
    st: StructState,
    unused: Seq<UnusedKeyView>,
)
    requires
        0 <= i <= entries.len(),
        forall|f: int| 0 <= f < s.fields.len() ==> is_leaf(&(#[trigger] s.fields[f]).shape),
    ensures
        struct_scan(&transformer, entries, &s, on, false, path, span, i, st, unused).result is Ok
            ==> struct_scan(&transformer, entries, &s, on, false, path, span, i, st, unused).unused
            == unused + unmatched_reports(entries, &s, path, i),
    decreases entries.len() - i,
{
    if i < entries.len() {
        let key = entries[i].0;
        let value = entries[i].1;
        let below = child_path(path, key);
        match classify(key, s.fields@) {
            KeyClass::Deferred => {
                law_unused_keys_are_reported_once(
                    transformer,
                    entries,
                    s,
                    on,
                    path,
                    span,
                    i + 1,
                    StructState { rest: st.rest.push(entries[i]), ..st },
                    unused,
                );
            },
            KeyClass::Unmatched => {
                let report = UnusedKeyView { path: below.render(), key, value };
                law_unused_keys_are_reported_once(
                    transformer,
                    entries,
                    s,
                    on,
                    path,
                    span,
                    i + 1,
                    st,
                    unused.push(report),
                );
                assert(unused.push(report) + unmatched_reports(entries, &s, path, i + 1) =~= unused
                    + unmatched_reports(entries, &s, path, i));
            },
            KeyClass::NotText => {},
            KeyClass::Field(f) => {
                if key is String {
                    lemma_field_position(s.fields@, key->String_0);
                }
                if !(st.slots[f] is Some) {
                    let shape = s.fields[f].shape;
                    law_leaf_reports_nothing(transformer, value, shape, on, false, below);
                    let o = decode(&transformer, value, &shape, on, false, below);
                    match o.result {
                        Ok(d) => {
                            law_unused_keys_are_reported_once(
                                transformer,
                                entries,
                                s,
                                on,
                                path,
                                span,
                                i + 1,
                                StructState { slots: st.slots.update(f, Some(d)), ..st },
                                unused + o.unused,
                            );
                            assert(unused + o.unused =~= unused);
                        },
                        Err(_) => {},
                    }
                }
            },
        }
    } else {
        assert(unused + unmatched_reports(entries, &s, path, i) =~= unused);
    }
}

/// Where a struct has a catch-all field, the scan of a mapping reports no
/// key of its own: the catch-all field takes what no other field takes.
pub proof fn law_catch_all_means_no_report(
    entries: Seq<(ValueView, ValueView)>,
    s: StructShape,
    path: PathView,
    i: int,
)
    requires
        has_flatten_from(s.fields@, 0),
    ensures
        unmatched_reports(entries, &s, path, i) == Seq::<UnusedKeyView>::empty(),
    decreases entries.len() - i,
{
    if 0 <= i < entries.len() {
        law_catch_all_means_no_report(entries, s, path, i + 1);
    }
}

} // verus!
