//! The decoder for sequences and tuples.

use crate::de::{unused_views, FieldTransformer, UnusedKey, UnusedKeyView};
use crate::de::borrowed::ValueRefDeserializer;
use crate::de::outcome::{agrees, invalid_length};
use crate::de::semantics::{as_sequence, decode, seq_items, tuple_items, Outcome};
use crate::decoded::{
    decoded_views, lemma_decoded_pair_views, lemma_decoded_views, lemma_decoded_views_push, Decoded,
    DecodedView,
};
use crate::error::{Error, ErrorView};
use crate::path::Path;
use crate::shape::Shape;
use crate::span::Span;
use crate::value::{lemma_pair_views, lemma_views, views, Value};
use vstd::prelude::*;
use vstd::string::*;

verus! {

broadcast use {lemma_views, lemma_pair_views, lemma_decoded_views, lemma_decoded_pair_views};

/// A decoder for the elements of a borrowed sequence, one after another.
pub struct SeqRefDeserializer<'p, 'v, F> {
    /// The elements.
    pub items: &'v Vec<Value>,
    /// The position of the element that is decoded next.
    pub current_idx: usize,
    /// The position of the sequence.
    pub path: Path<'p>,
    /// The field transformer.
    pub transformer: &'v F,
    /// The apply-transform flag.
    pub should_transform: bool,
}

impl<'p, 'v, F: FieldTransformer> SeqRefDeserializer<'p, 'v, F> {
    /// A decoder that stands before the first element.
    pub fn new(
        items: &'v Vec<Value>,
        path: Path<'p>,
        transformer: &'v F,
        should_transform: bool,
    ) -> (de: Self)
        ensures
            de.items == items,
            de.current_idx == 0,
            de.path == path,
            de.transformer == transformer,
            de.should_transform == should_transform,
    {
        SeqRefDeserializer { items, current_idx: 0, path, transformer, should_transform }
    }

    /// What decoding the element at position `i` into `elem` gives.
    pub open spec fn spec_element(&self, i: int, elem: &Shape) -> Outcome {
        decode(
            self.transformer,
            views(self.items@)[i],
            elem,
            self.should_transform,
            false,
            self.path@.at(i as usize),
        )
    }

    /// The number of elements that are left.
    pub fn size_hint(&self) -> (n: usize)
        ensures
            n == (if self.current_idx <= self.items.len() {
                self.items.len() - self.current_idx
            } else {
                0
            }),
    {
        if self.current_idx <= self.items.len() {
            self.items.len() - self.current_idx
        } else {
            0
        }
    }

    /// Decodes the next element into `elem`, or returns `None` at the end of
    /// the sequence.
    pub fn next_element_seed(&mut self, elem: &Shape, unused: &mut Vec<UnusedKey>) -> (r: Result<
        Option<Decoded>,
        Error,
    >)
        ensures
            final(self).items == old(self).items,
            final(self).path == old(self).path,
            final(self).transformer == old(self).transformer,
            final(self).should_transform == old(self).should_transform,
            old(self).current_idx >= old(self).items.len() ==> {
                &&& r matches Ok(None)
                &&& final(self).current_idx == old(self).current_idx
                &&& final(unused)@ == old(unused)@
            },
            old(self).current_idx < old(self).items.len() ==> {
                &&& final(self).current_idx == old(self).current_idx + 1
                &&& !(r matches Ok(None))
                &&& match r {
                    Ok(Some(d)) => old(self).spec_element(old(self).current_idx as int, elem).result
                        == Ok::<DecodedView, ErrorView>(d@),
                    Ok(None) => false,
                    Err(e) => old(self).spec_element(old(self).current_idx as int, elem).result
                        == Err::<DecodedView, ErrorView>(e@),
                }
                &&& unused_views(final(unused)@) == unused_views(old(unused)@) + old(
                    self,
                ).spec_element(old(self).current_idx as int, elem).unused
            },
        decreases elem, 4int, 0int,
    {
        if self.current_idx < self.items.len() {
            let idx = self.current_idx;
            self.current_idx = idx + 1;
            let child = Path::Sequence { parent: &self.path, index: idx };
            let de = ValueRefDeserializer::new_with(
                &self.items[idx],
                child,
                self.transformer,
                self.should_transform,
            );
            match de.deserialize(elem, unused) {
                Ok(d) => Ok(Some(d)),
                Err(e) => Err(e),
            }
        } else {
            Ok(None)
        }
    }
}

/// Decodes the elements of a sequence, each into `elem`.
pub fn visit_sequence_ref<'p, 'v, F: FieldTransformer>(
    items: &'v Vec<Value>,
    path: Path<'p>,
    elem: &Shape,
    transformer: &'v F,
    should_transform: bool,
    unused: &mut Vec<UnusedKey>,
) -> (r: Result<Decoded, Error>)
    ensures
        agrees(
            r,
            old(unused)@,
            final(unused)@,
            as_sequence(
                seq_items(
                    transformer,
                    views(items@),
                    elem,
                    should_transform,
                    path@,
                    0,
                    Seq::empty(),
                    Seq::empty(),
                ),
            ),
        ),
    decreases elem, 4int, 1int,
{
    let ghost start = unused@;
    let ghost whole = seq_items(
        transformer,
        views(items@),
        elem,
        should_transform,
        path@,
        0,
        Seq::empty(),
        Seq::empty(),
    );
    let mut de = SeqRefDeserializer::new(items, path, transformer, should_transform);
    let mut out: Vec<Decoded> = Vec::new();
    let ghost mut extra: Seq<UnusedKeyView> = Seq::empty();
    assert(unused_views(unused@) =~= unused_views(start) + extra);
    while de.current_idx < items.len()
        invariant
            de.items == items,
            de.path == path,
            de.transformer == transformer,
            de.should_transform == should_transform,
            de.current_idx <= items.len(),
            start == old(unused)@,
            whole == seq_items(
                transformer,
                views(items@),
                elem,
                should_transform,
                path@,
                0,
                Seq::empty(),
                Seq::empty(),
            ),
            unused_views(unused@) == unused_views(start) + extra,
            whole == seq_items(
                transformer,
                views(items@),
                elem,
                should_transform,
                path@,
                de.current_idx as int,
                decoded_views(out@),
                extra,
            ),
        decreases items.len() - de.current_idx,
    {
        let ghost o = de.spec_element(de.current_idx as int, elem);
        match de.next_element_seed(elem, unused) {
            Err(e) => {
                assert(unused_views(unused@) =~= unused_views(start) + (extra + o.unused));
                return Err(e);
            },
            Ok(None) => {
                assert(false);
            },
            Ok(Some(d)) => {
                proof {
                    lemma_decoded_views_push(out@, d);
                    assert(unused_views(unused@) =~= unused_views(start) + (extra + o.unused));
                    extra = extra + o.unused;
                }
                out.push(d);
            },
        }
    }
    Ok(Decoded::Sequence(out))
}

/// Decodes the elements of a sequence into the shapes of a tuple.
pub fn visit_tuple_ref<'p, 'v, F: FieldTransformer>(
    items: &'v Vec<Value>,
    path: Path<'p>,
    shapes: &Vec<Shape>,
    expected: &str,
    span: Span,
    transformer: &'v F,
    should_transform: bool,
    unused: &mut Vec<UnusedKey>,
) -> (r: Result<Decoded, Error>)
    ensures
        agrees(
            r,
            old(unused)@,
            final(unused)@,
            as_sequence(
                tuple_items(
                    transformer,
                    views(items@),
                    shapes,
                    expected@,
                    should_transform,
                    path@,
                    span,
                    0,
                    Seq::empty(),
                    Seq::empty(),
                ),
            ),
        ),
    decreases shapes, 4int, 0int,
{
    let ghost start = unused@;
    let ghost whole = tuple_items(
        transformer,
        views(items@),
        shapes,
        expected@,
        should_transform,
        path@,
        span,
        0,
        Seq::empty(),
        Seq::empty(),
    );
    let mut out: Vec<Decoded> = Vec::new();
    let ghost mut extra: Seq<UnusedKeyView> = Seq::empty();
    assert(unused_views(unused@) =~= unused_views(start) + extra);
    let mut i: usize = 0;
    while i < shapes.len()
        invariant
            i <= shapes.len(),
            start == old(unused)@,
            whole == tuple_items(
                transformer,
                views(items@),
                shapes,
                expected@,
                should_transform,
                path@,
                span,
                0,
                Seq::empty(),
                Seq::empty(),
            ),
            unused_views(unused@) == unused_views(start) + extra,
            whole == tuple_items(
                transformer,
                views(items@),
                shapes,
                expected@,
                should_transform,
                path@,
                span,
                i as int,
                decoded_views(out@),
                extra,
            ),
        decreases shapes.len() - i,
    {
        if i >= items.len() {
            return Err(invalid_length(i, expected, span));
        }
        let child = Path::Sequence { parent: &path, index: i };
        let de = ValueRefDeserializer::new_with(&items[i], child, transformer, should_transform);
        let ghost o = de.spec_decode(&shapes[i as int]);
        match de.deserialize(&shapes[i], unused) {
            Err(e) => {
                assert(unused_views(unused@) =~= unused_views(start) + (extra + o.unused));
                return Err(e);
            },
            Ok(d) => {
                proof {
                    lemma_decoded_views_push(out@, d);
                    assert(unused_views(unused@) =~= unused_views(start) + (extra + o.unused));
                    extra = extra + o.unused;
                }
                out.push(d);
            },
        }
        i += 1;
    }
    if items.len() > shapes.len() {
        return Err(invalid_length(items.len(), "fewer elements in sequence", span));
    }
    Ok(Decoded::Sequence(out))
}

} // verus!
