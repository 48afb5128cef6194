//! Decoding into a node: the tree as the transformer leaves it, and strings of
//! bytes.

use crate::de::FieldTransformer;
use crate::de::borrowed::ValueRefDeserializer;
use crate::de::outcome::{integer_from, invalid_type};
use crate::de::semantics::{
    byte_from, byte_items, rebuild, rebuild_children, rebuild_entries, rebuild_items,
};
use crate::decoded::{lemma_decoded_pair_views, lemma_decoded_views, Decoded};
use crate::error::{Error, ErrorView};
use crate::path::Path;
use crate::shape::IntKind;
use crate::value::{
    lemma_pair_views, lemma_position_is, lemma_views, lemma_views_push, pair_views, same,
    unique_keys, views, Mapping, TaggedValue, Value, ValueView,
};
use vstd::prelude::*;
use vstd::string::*;

verus! {

broadcast use {lemma_views, lemma_pair_views, lemma_decoded_views, lemma_decoded_pair_views};

/// The model of the result of a rebuild.
pub open spec fn rebuilt_view(r: Result<Value, Error>) -> Result<ValueView, ErrorView> {
    match r {
        Ok(v) => Ok(v@),
        Err(e) => Err(e@),
    }
}

/// Rebuilds a tree, handing every node to the transformer from the root
/// down.
pub fn rebuild_value<F: FieldTransformer>(t: &F, v: &Value, on: bool, done: bool) -> (r: Result<
    Value,
    Error,
>)
    ensures
        rebuilt_view(r) == rebuild(t, v@, on, done),
    decreases v, 1int,
{
    if on && !done {
        match t.transform(v) {
            Err(e) => Err(Error::external(e, v.span())),
            Ok(Some(w)) => Ok(w),
            Ok(None) => rebuild_children_of(t, v, on),
        }
    } else {
        rebuild_children_of(t, v, on)
    }
}

fn rebuild_items_of<F: FieldTransformer>(t: &F, items: &Vec<Value>, on: bool) -> (r: Result<
    Vec<Value>,
    Error,
>)
    ensures
        match r {
            Ok(rebuilt) => rebuild_items(t, views(items@), on, 0, Seq::empty()) == Ok::<
                Seq<ValueView>,
                ErrorView,
            >(views(rebuilt@)),
            Err(e) => rebuild_items(t, views(items@), on, 0, Seq::empty()) == Err::<
                Seq<ValueView>,
                ErrorView,
            >(e@),
        },
    decreases items, 2int,
{
    let mut out: Vec<Value> = Vec::new();
    let mut i: usize = 0;
    while i < items.len()
        invariant
            i <= items.len(),
            rebuild_items(t, views(items@), on, 0, Seq::empty()) == rebuild_items(
                t,
                views(items@),
                on,
                i as int,
                views(out@),
            ),
        decreases items.len() - i,
    {
        match rebuild_value(t, &items[i], on, false) {
            Ok(w) => {
                proof {
                    lemma_views_push(out@, w);
                }
                out.push(w);
            },
            Err(e) => {
                return Err(e);
            },
        }
        i += 1;
    }
    Ok(out)
}

fn rebuild_entries_of<F: FieldTransformer>(t: &F, entries: &Vec<(Value, Value)>, on: bool) -> (r:
    Result<Mapping, Error>)
    requires
        unique_keys(pair_views(entries@)),
    ensures
        match r {
            Ok(rebuilt) => rebuild_entries(t, pair_views(entries@), on, 0, Seq::empty()) == Ok::<
                Seq<(ValueView, ValueView)>,
                ErrorView,
            >(rebuilt@),
            Err(e) => rebuild_entries(t, pair_views(entries@), on, 0, Seq::empty()) == Err::<
                Seq<(ValueView, ValueView)>,
                ErrorView,
            >(e@),
        },
    decreases entries, 2int,
{
    let mut out = Mapping::new();
    let mut i: usize = 0;
    while i < entries.len()
        invariant
            i <= entries.len(),
            unique_keys(pair_views(entries@)),
            out@.len() == i,
            forall|j: int| 0 <= j < i ==> (#[trigger] out@[j]).0 == pair_views(entries@)[j].0,
            rebuild_entries(t, pair_views(entries@), on, 0, Seq::empty()) == rebuild_entries(
                t,
                pair_views(entries@),
                on,
                i as int,
                out@,
            ),
        decreases entries.len() - i,
    {
        match rebuild_value(t, &entries[i].1, on, false) {
            Ok(w) => {
                let k = entries[i].0.duplicate();
                proof {
                    let all = pair_views(entries@);
                    assert forall|j: int| 0 <= j < out@.len() implies !same(
                        (#[trigger] out@[j]).0,
                        k@,
                    ) by {
                        assert(!same(all[j].0, all[i as int].0));
                    }
                    lemma_position_is(out@, k@, out@.len() as int);
                }
                out.insert(k, w);
            },
            Err(e) => {
                return Err(e);
            },
        }
        i += 1;
    }
    Ok(out)
}

fn rebuild_children_of<F: FieldTransformer>(t: &F, v: &Value, on: bool) -> (r: Result<Value, Error>)
    ensures
        rebuilt_view(r) == rebuild_children(t, v@, on),
    decreases v, 0int,
{
    match v {
        Value::Sequence(items, span) => match rebuild_items_of(t, items, on) {
            Ok(rebuilt) => Ok(Value::Sequence(rebuilt, *span)),
            Err(e) => Err(e),
        },
        Value::Mapping(m, span) => match rebuild_entries_of(t, m.entries(), on) {
            Ok(rebuilt) => Ok(Value::Mapping(rebuilt, *span)),
            Err(e) => Err(e),
        },
        Value::Tagged(tagged, span) => match rebuild_value(t, &tagged.value, on, false) {
            Ok(w) => Ok(
                Value::Tagged(Box::new(TaggedValue { tag: tagged.tag.clone(), value: w }), *span),
            ),
            Err(e) => Err(e),
        },
        _ => Ok(v.duplicate()),
    }
}

/// Decodes a node as a byte.
pub fn byte_of<F: FieldTransformer>(t: &F, v: &Value, on: bool) -> (r: Result<u8, Error>)
    ensures
        match r {
            Ok(b) => byte_from(t, v@, on) == Ok::<u8, ErrorView>(b),
            Err(e) => byte_from(t, v@, on) == Err::<u8, ErrorView>(e@),
        },
{
    let de = ValueRefDeserializer::new_with(v, Path::Root, t, on);
    let replaced = de.maybe_apply_transformation()?;
    let w = match &replaced {
        Some(w) => w,
        None => v,
    };
    match w.untag_ref() {
        Value::Number(n, span) => match integer_from(n, IntKind::U8, *span) {
            Ok(Decoded::Unsigned(b)) => Ok(b as u8),
            Ok(_) => {
                proof {
                    assert(false);
                }
                Ok(0)
            },
            Err(e) => Err(e),
        },
        other => Err(invalid_type(other, IntKind::U8.name())),
    }
}

/// Decodes the items of a sequence as bytes.
pub fn bytes_of<F: FieldTransformer>(t: &F, items: &Vec<Value>, on: bool) -> (r: Result<
    Vec<u8>,
    Error,
>)
    ensures
        match r {
            Ok(bytes) => byte_items(t, views(items@), on, 0, Seq::empty()) == Ok::<
                Seq<u8>,
                ErrorView,
            >(bytes@),
            Err(e) => byte_items(t, views(items@), on, 0, Seq::empty()) == Err::<
                Seq<u8>,
                ErrorView,
            >(e@),
        },
{
    let mut out: Vec<u8> = Vec::new();
    let mut i: usize = 0;
    while i < items.len()
        invariant
            i <= items.len(),
            byte_items(t, views(items@), on, 0, Seq::empty()) == byte_items(
                t,
                views(items@),
                on,
                i as int,
                out@,
            ),
        decreases items.len() - i,
    {
        match byte_of(t, &items[i], on) {
            Ok(b) => {
                out.push(b);
            },
            Err(e) => {
                return Err(e);
            },
        }
        i += 1;
    }
    Ok(out)
}

} // verus!
