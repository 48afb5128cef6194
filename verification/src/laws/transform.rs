//! Laws of the apply-transform flag: where the flag is off, a decode does
//! not depend on the transformer.

use crate::de::semantics::{
    byte_from, byte_items, classify, decode, decode_node, map_entries, payload_decode, seq_items, struct_decode,
    struct_flatten, struct_scan, tuple_items, variant_decode, KeyClass, StructState,
};
use crate::de::{FieldTransformer, UnusedKeyView};
use crate::decoded::DecodedView;

use crate::laws::decode::law_rebuild_keeps_tree;
use crate::path::PathView;
use crate::shape::{
    has_flatten_from, is_flatten_field, lemma_field_position, lemma_variant_position,
    variant_position, EnumShape, MapShape, Payload, Shape, StructShape,
};
use crate::span::Span;
use crate::value::ValueView;
use vstd::prelude::*;

verus! {

/// With the apply-transform flag off, decoding a node does not depend on
/// the transformer.
pub proof fn law_flag_off_ignores_transformer<F: FieldTransformer, G: FieldTransformer>(
    t1: F,
    t2: G,
    v: ValueView,
    shape: Shape,
    done: bool,
    path: PathView,
)
    ensures
        decode(&t1, v, &shape, false, done, path) == decode(&t2, v, &shape, false, done, path),
    decreases shape, 3int, 0int,
{
    match shape {
        Shape::VerbatimLegacy(inner) => {
            law_flag_off_ignores_transformer(t1, t2, v, *inner, done, path);
        },
        Shape::ShouldBe(inner) => {
            law_flag_off_ignores_transformer(t1, t2, v, *inner, done, path);
        },
        Shape::Spanned(inner) => {
            law_flag_off_ignores_transformer(t1, t2, v, *inner, done, path);
        },
        Shape::Any => {
            law_rebuild_keeps_tree(t1, v, false, done);
            law_rebuild_keeps_tree(t2, v, false, done);
        },
        Shape::Verbatim(_) => {},
        Shape::Ignored => {},
        _ => {
            lemma_node(t1, t2, v, shape, path);
        },
    }
}

/// A value that is decoded with the field transformer switched off is
/// unaffected by the transformer, whatever the apply-transform flag was
/// before.
pub proof fn law_verbatim_legacy_ignores_transformer<F: FieldTransformer, G: FieldTransformer>(
    t1: F,
    t2: G,
    v: ValueView,
    inner: Shape,
    on: bool,
    done: bool,
    path: PathView,
)
    ensures
        decode(&t1, v, &Shape::VerbatimLegacy(Box::new(inner)), on, done, path) == decode(
            &t2,
            v,
            &Shape::VerbatimLegacy(Box::new(inner)),
            false,
            done,
            path,
        ),
{
    reveal_with_fuel(decode, 2);
    law_flag_off_ignores_transformer(t1, t2, v, inner, done, path);
}

proof fn lemma_node<F: FieldTransformer, G: FieldTransformer>(
    t1: F,
    t2: G,
    v: ValueView,
    shape: Shape,
    path: PathView,
)
    ensures
        decode_node(&t1, v, &shape, false, path) == decode_node(&t2, v, &shape, false, path),
    decreases shape, 2int, 0int,
{
    let none = Seq::<UnusedKeyView>::empty();
    match shape {
        Shape::Optional(inner) => {
            law_flag_off_ignores_transformer(t1, t2, v, *inner, true, path);
        },
        Shape::Newtype(inner) => {
            law_flag_off_ignores_transformer(t1, t2, v, *inner, true, path);
        },
        Shape::Sequence(elem) => match v.untag() {
            ValueView::Sequence(items, _) => {
                lemma_items(t1, t2, items, *elem, path, 0, Seq::empty(), none);
            },
            _ => {},
        },
        Shape::Tuple(shapes) => match v.untag() {
            ValueView::Sequence(items, span) => {
                lemma_tuple(
                    t1,
                    t2,
                    items,
                    shapes,
                    shape.spec_expecting(),
                    path,
                    span,
                    0,
                    Seq::empty(),
                    none,
                );
            },
            ValueView::Null(span) => {
                lemma_tuple(
                    t1,
                    t2,
                    Seq::empty(),
                    shapes,
                    shape.spec_expecting(),
                    path,
                    span,
                    0,
                    Seq::empty(),
                    none,
                );
            },
            _ => {},
        },
        Shape::Mapping(m) => match v.untag() {
            ValueView::Mapping(entries, _) => {
                lemma_map(t1, t2, entries, *m, path, 0, Seq::empty(), none);
            },
            _ => {},
        },
        Shape::Struct(s) => match v.untag() {
            ValueView::Mapping(entries, span) => {
                lemma_struct(t1, t2, entries, s, false, path, span);
            },
            ValueView::Null(span) => {
                lemma_struct(t1, t2, Seq::empty(), s, false, path, span);
            },
            _ => {},
        },
        Shape::Bytes => match v.untag() {
            ValueView::Sequence(items, _) => {
                lemma_bytes(t1, t2, items, 0, Seq::empty());
            },
            _ => {},
        },
        Shape::Enum(e) => match v {
            ValueView::Tagged(tag, inner, span) => {
                lemma_variant(t1, t2, crate::text::spec_nobang(tag), Some(*inner), e, path, span);
            },
            ValueView::String(s, span) => {
                lemma_variant(t1, t2, s, None, e, path, span);
            },
            _ => {},
        },
        _ => {},
    }
}

proof fn lemma_bytes<F: FieldTransformer, G: FieldTransformer>(
    t1: F,
    t2: G,
    items: Seq<ValueView>,
    i: int,
    acc: Seq<u8>,
)
    ensures
        byte_items(&t1, items, false, i, acc) == byte_items(&t2, items, false, i, acc),
    decreases items.len() - i,
{
    if 0 <= i < items.len() {
        match byte_from(&t1, items[i], false) {
            Ok(b) => {
                lemma_bytes(t1, t2, items, i + 1, acc.push(b));
            },
            Err(_) => {},
        }
    }
}

proof fn lemma_items<F: FieldTransformer, G: FieldTransformer>(
    t1: F,
    t2: G,
    items: Seq<ValueView>,
    elem: Shape,
    path: PathView,
    i: int,
    acc: Seq<DecodedView>,
    unused: Seq<UnusedKeyView>,
)
    ensures
        seq_items(&t1, items, &elem, false, path, i, acc, unused) == seq_items(
            &t2,
            items,
            &elem,
            false,
            path,
            i,
            acc,
            unused,
        ),
    decreases elem, 4int, items.len() - i,
{
    if 0 <= i < items.len() {
        law_flag_off_ignores_transformer(t1, t2, items[i], elem, false, path.at(i as usize));
        let o = decode(&t1, items[i], &elem, false, false, path.at(i as usize));
        match o.result {
            Ok(d) => {
                lemma_items(t1, t2, items, elem, path, i + 1, acc.push(d), unused + o.unused);
            },
            Err(_) => {},
        }
    }
}

proof fn lemma_tuple<F: FieldTransformer, G: FieldTransformer>(
    t1: F,
    t2: G,
    items: Seq<ValueView>,
    shapes: Vec<Shape>,
    expected: Seq<char>,
    path: PathView,
    span: Span,
    i: int,
    acc: Seq<DecodedView>,
    unused: Seq<UnusedKeyView>,
)
    ensures
        tuple_items(&t1, items, &shapes, expected, false, path, span, i, acc, unused)
            == tuple_items(&t2, items, &shapes, expected, false, path, span, i, acc, unused),
    decreases shapes, 1int, shapes.len() - i,
{
    if 0 <= i < shapes.len() && i < items.len() {
        law_flag_off_ignores_transformer(t1, t2, items[i], shapes[i], false, path.at(i as usize));
        let o = decode(&t1, items[i], &shapes[i], false, false, path.at(i as usize));
        match o.result {
            Ok(d) => {
                lemma_tuple(
                    t1,
                    t2,
                    items,
                    shapes,
                    expected,
                    path,
                    span,
                    i + 1,
                    acc.push(d),
                    unused + o.unused,
                );
            },
            Err(_) => {},
        }
    }
}

proof fn lemma_map<F: FieldTransformer, G: FieldTransformer>(
    t1: F,
    t2: G,
    entries: Seq<(ValueView, ValueView)>,
    m: MapShape,
    path: PathView,
    i: int,
    acc: Seq<(DecodedView, DecodedView)>,
    unused: Seq<UnusedKeyView>,
)
    ensures
        map_entries(&t1, entries, &m, false, path, i, acc, unused) == map_entries(
            &t2,
            entries,
            &m,
            false,
            path,
            i,
            acc,
            unused,
        ),
    decreases m, 1int, entries.len() - i,
{
    if 0 <= i < entries.len() {
        law_flag_off_ignores_transformer(t1, t2, entries[i].0, m.key, false, PathView::Root);
        let k = decode(&t1, entries[i].0, &m.key, false, false, PathView::Root);
        match k.result {
            Ok(kd) => {
                let below = crate::de::semantics::child_path(path, entries[i].0);
                law_flag_off_ignores_transformer(t1, t2, entries[i].1, m.value, false, below);
                let o = decode(&t1, entries[i].1, &m.value, false, false, below);
                match o.result {
                    Ok(vd) => {
                        lemma_map(
                            t1,
                            t2,
                            entries,
                            m,
                            path,
                            i + 1,
                            acc.push((kd, vd)),
                            unused + k.unused + o.unused,
                        );
                    },
                    Err(_) => {},
                }
            },
            Err(_) => {},
        }
    }
}

proof fn lemma_scan<F: FieldTransformer, G: FieldTransformer>(
    t1: F,
    t2: G,
    entries: Seq<(ValueView, ValueView)>,
    s: StructShape,
    collect: bool,
    path: PathView,
    span: Span,
    i: int,
    st: StructState,
    unused: Seq<UnusedKeyView>,
)
    ensures
        struct_scan(&t1, entries, &s, false, collect, path, span, i, st, unused) == struct_scan(
            &t2,
            entries,
            &s,
            false,
            collect,
            path,
            span,
            i,
            st,
            unused,
        ),
    decreases s, 1int, entries.len() - i,
{
    if 0 <= i < entries.len() {
        let key = entries[i].0;
        let value = entries[i].1;
        let below = crate::de::semantics::child_path(path, key);
        match classify(key, s.fields@) {
            KeyClass::Deferred => {
                lemma_scan(
                    t1,
                    t2,
                    entries,
                    s,
                    collect,
                    path,
                    span,
                    i + 1,
                    StructState { rest: st.rest.push(entries[i]), ..st },
                    unused,
                );
            },
            KeyClass::Unmatched => {
                if collect {
                    lemma_scan(
                        t1,
                        t2,
                        entries,
                        s,
                        collect,
                        path,
                        span,
                        i + 1,
                        StructState { leftover: st.leftover.push(entries[i]), ..st },
                        unused,
                    );
                } else {
                    lemma_scan(
                        t1,
                        t2,
                        entries,
                        s,
                        collect,
                        path,
                        span,
                        i + 1,
                        st,
                        unused.push(UnusedKeyView { path: below.render(), key, value }),
                    );
                }
            },
            KeyClass::NotText => {},
            KeyClass::Field(f) => {
                if key is String {
                    lemma_field_position(s.fields@, key->String_0);
                }
                if !(st.slots[f] is Some) {
                    let shape = s.fields[f].shape;
                    law_flag_off_ignores_transformer(t1, t2, value, shape, false, below);
                    let o = decode(&t1, value, &shape, false, false, below);
                    match o.result {
                        Ok(d) => {
                            lemma_scan(
                                t1,
                                t2,
                                entries,
                                s,
                                collect,
                                path,
                                span,
                                i + 1,
                                StructState { slots: st.slots.update(f, Some(d)), ..st },
                                unused + o.unused,
                            );
                        },
                        Err(_) => {},
                    }
                }
            },
        }
    }
}

proof fn lemma_flatten<F: FieldTransformer, G: FieldTransformer>(
    t1: F,
    t2: G,
    s: StructShape,
    path: PathView,
    k: int,
    st: StructState,
    unused: Seq<UnusedKeyView>,
)
    ensures
        struct_flatten(&t1, &s, false, path, k, st, unused) == struct_flatten(
            &t2,
            &s,
            false,
            path,
            k,
            st,
            unused,
        ),
    decreases s, 1int, s.fields.len() - k,
{
    if 0 <= k < s.fields.len() {
        if !is_flatten_field(s.fields[k]) {
            lemma_flatten(t1, t2, s, path, k + 1, st, unused);
        } else {
            let below = path.under(s.fields[k].name@);
            let pool = crate::value::spec_collect(st.rest);
            match s.fields[k].shape {
                Shape::Struct(inner) if has_flatten_from(s.fields@, k + 1) => {
                    lemma_struct(t1, t2, pool, inner, true, below, Span::spec_zero());
                    let o = struct_decode(&t1, pool, &inner, false, true, below, Span::spec_zero());
                    match o.result {
                        Ok(r) => {
                            lemma_flatten(
                                t1,
                                t2,
                                s,
                                path,
                                k + 1,
                                StructState {
                                    slots: st.slots.update(k, Some(r.0)),
                                    rest: r.1,
                                    ..st
                                },
                                unused + o.unused,
                            );
                        },
                        Err(_) => {},
                    }
                },
                shape => {
                    let whole = ValueView::Mapping(pool, Span::spec_zero());
                    law_flag_off_ignores_transformer(t1, t2, whole, shape, false, below);
                    let o = decode(&t1, whole, &shape, false, false, below);
                    match o.result {
                        Ok(d) => {
                            lemma_flatten(
                                t1,
                                t2,
                                s,
                                path,
                                k + 1,
                                StructState {
                                    slots: st.slots.update(k, Some(d)),
                                    rest: Seq::empty(),
                                    ..st
                                },
                                unused + o.unused,
                            );
                        },
                        Err(_) => {},
                    }
                },
            }
        }
    }
}

proof fn lemma_struct<F: FieldTransformer, G: FieldTransformer>(
    t1: F,
    t2: G,
    entries: Seq<(ValueView, ValueView)>,
    s: StructShape,
    collect: bool,
    path: PathView,
    span: Span,
)
    ensures
        struct_decode(&t1, entries, &s, false, collect, path, span) == struct_decode(
            &t2,
            entries,
            &s,
            false,
            collect,
            path,
            span,
        ),
    decreases s, 2int, 0int,
{
    let start = crate::de::semantics::empty_state(&s);
    lemma_scan(t1, t2, entries, s, collect, path, span, 0, start, Seq::empty());
    let a = struct_scan(&t1, entries, &s, false, collect, path, span, 0, start, Seq::empty());
    match a.result {
        Ok(scanned) => {
            lemma_flatten(t1, t2, s, path, 0, scanned, a.unused);
        },
        Err(_) => {},
    }
}

proof fn lemma_payload<F: FieldTransformer, G: FieldTransformer>(
    t1: F,
    t2: G,
    payload: Option<ValueView>,
    kind: Payload,
    path: PathView,
    span: Span,
)
    ensures
        payload_decode(&t1, payload, &kind, false, path, span) == payload_decode(
            &t2,
            payload,
            &kind,
            false,
            path,
            span,
        ),
    decreases kind, 1int, 0int,
{
    match (kind, payload) {
        (Payload::Newtype(shape), Some(v)) => {
            law_flag_off_ignores_transformer(t1, t2, v, shape, false, path);
        },
        (Payload::Tuple(shapes), Some(ValueView::Sequence(items, inner_span))) => {
            lemma_tuple(
                t1,
                t2,
                items,
                shapes,
                "tuple variant"@,
                path,
                inner_span,
                0,
                Seq::empty(),
                Seq::empty(),
            );
        },
        (Payload::Struct(s), Some(ValueView::Mapping(entries, inner_span))) => {
            lemma_struct(t1, t2, entries, s, false, path, inner_span);
        },
        _ => {},
    }
}

proof fn lemma_variant<F: FieldTransformer, G: FieldTransformer>(
    t1: F,
    t2: G,
    name: Seq<char>,
    payload: Option<ValueView>,
    e: EnumShape,
    path: PathView,
    span: Span,
)
    ensures
        variant_decode(&t1, name, payload, &e, false, path, span) == variant_decode(
            &t2,
            name,
            payload,
            &e,
            false,
            path,
            span,
        ),
    decreases e, 1int, 0int,
{
    let p = variant_position(e.variants@, name);
    lemma_variant_position(e.variants@, name);
    if p < e.variants.len() {
        lemma_payload(t1, t2, payload, e.variants[p].payload, path, span);
    }
}

} // verus!
