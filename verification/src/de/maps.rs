//! The decoder for maps.

use crate::de::{unused_views, FieldTransformer, UnusedKey, UnusedKeyView};
use crate::de::borrowed::ValueRefDeserializer;
use crate::de::outcome::agrees;
use crate::de::semantics::{as_mapping, child_path, decode, map_entries, Outcome};
use crate::decoded::{
    decoded_pair_views, lemma_decoded_pair_views, lemma_decoded_pair_views_push,
    lemma_decoded_views, Decoded, DecodedView,
};
use crate::error::{Error, ErrorView};
use crate::path::{Path, PathView};
use crate::shape::{MapShape, Shape};
use crate::value::{lemma_pair_views, lemma_views, pair_views, Value};
use vstd::prelude::*;
use vstd::string::*;

verus! {

broadcast use {lemma_views, lemma_pair_views, lemma_decoded_views, lemma_decoded_pair_views};

/// The path of the value under `key`, below `parent`.
pub fn path_under<'a>(parent: &'a Path<'a>, key: &'a Value) -> (p: Path<'a>)
    ensures
        p@ == child_path(parent@, key@),
{
    match key {
        Value::String(s, _) => Path::Mapping { parent, key: s.as_str() },
        _ => Path::Unknown { parent },
    }
}

/// A decoder for the entries of a borrowed mapping, one after another: for
/// each entry first its key, then its value.
pub struct MapRefDeserializer<'p, 'v, F> {
    /// The entries.
    pub entries: &'v Vec<(Value, Value)>,
    /// The position of the entry that is decoded next.
    pub pos: usize,
    /// True if the key of the entry at `pos` has been decoded and its value
    /// has not.
    pub pending: bool,
    /// The position of the mapping.
    pub path: Path<'p>,
    /// The field transformer.
    pub transformer: &'v F,
    /// The apply-transform flag.
    pub should_transform: bool,
}

impl<'p, 'v, F: FieldTransformer> MapRefDeserializer<'p, 'v, F> {
    /// A decoder that stands before the first entry.
    pub fn new(
        entries: &'v Vec<(Value, Value)>,
        path: Path<'p>,
        transformer: &'v F,
        should_transform: bool,
    ) -> (de: Self)
        ensures
            de.entries == entries,
            de.pos == 0,
            !de.pending,
            de.path == path,
            de.transformer == transformer,
            de.should_transform == should_transform,
    {
        MapRefDeserializer { entries, pos: 0, pending: false, path, transformer, should_transform }
    }

    /// The decoder differs from `other` in its progress alone.
    pub open spec fn same_setup(&self, other: &Self) -> bool {
        &&& self.entries == other.entries
        &&& self.path == other.path
        &&& self.transformer == other.transformer
        &&& self.should_transform == other.should_transform
    }

    /// What decoding the key of the entry at `pos` into `shape` gives. A key
    /// is never handed to the transformer.
    pub open spec fn spec_key(&self, shape: &Shape) -> Outcome {
        decode(
            self.transformer,
            pair_views(self.entries@)[self.pos as int].0,
            shape,
            false,
            false,
            PathView::Root,
        )
    }

    /// What decoding the value of the entry at `pos` into `shape` gives.
    pub open spec fn spec_value(&self, shape: &Shape) -> Outcome {
        decode(
            self.transformer,
            pair_views(self.entries@)[self.pos as int].1,
            shape,
            self.should_transform,
            false,
            child_path(self.path@, pair_views(self.entries@)[self.pos as int].0),
        )
    }

    /// The number of entries that are left.
    pub fn size_hint(&self) -> (n: usize)
        ensures
            n == (if self.pos <= self.entries.len() {
                self.entries.len() - self.pos
            } else {
                0
            }),
    {
        if self.pos <= self.entries.len() {
            self.entries.len() - self.pos
        } else {
            0
        }
    }

    /// Decodes the key of the next entry into `shape`, or returns `None` at
    /// the end of the mapping.
    pub fn next_key_seed(&mut self, shape: &Shape, unused: &mut Vec<UnusedKey>) -> (r: Result<
        Option<Decoded>,
        Error,
    >)
        ensures
            final(self).same_setup(old(self)),
            final(self).pos == old(self).pos,
            old(self).pos >= old(self).entries.len() ==> {
                &&& r matches Ok(None)
                &&& final(self).pending == old(self).pending
                &&& final(unused)@ == old(unused)@
            },
            old(self).pos < old(self).entries.len() ==> {
                &&& match r {
                    Ok(Some(d)) => final(self).pending && old(self).spec_key(shape).result == Ok::<
                        DecodedView,
                        ErrorView,
                    >(d@),
                    Ok(None) => false,
                    Err(e) => old(self).spec_key(shape).result == Err::<DecodedView, ErrorView>(e@),
                }
                &&& unused_views(final(unused)@) == unused_views(old(unused)@) + old(
                    self,
                ).spec_key(shape).unused
            },
        decreases shape, 4int, 0int,
    {
        if self.pos < self.entries.len() {
            let de = ValueRefDeserializer::new_with(
                &self.entries[self.pos].0,
                Path::Root,
                self.transformer,
                false,
            );
            match de.deserialize(shape, unused) {
                Ok(d) => {
                    self.pending = true;
                    Ok(Some(d))
                },
                Err(e) => Err(e),
            }
        } else {
            Ok(None)
        }
    }

    /// Decodes the value of the entry whose key was decoded last.
    pub fn next_value_seed(&mut self, shape: &Shape, unused: &mut Vec<UnusedKey>) -> (r: Result<
        Decoded,
        Error,
    >)
        requires
            old(self).pos < old(self).entries.len(),
            old(self).pending,
        ensures
            final(self).same_setup(old(self)),
            final(self).pos == old(self).pos + 1,
            !final(self).pending,
            agrees(r, old(unused)@, final(unused)@, old(self).spec_value(shape)),
        decreases shape, 4int, 0int,
    {
        let idx = self.pos;
        self.pos = idx + 1;
        self.pending = false;
        let child = path_under(&self.path, &self.entries[idx].0);
        let de = ValueRefDeserializer::new_with(
            &self.entries[idx].1,
            child,
            self.transformer,
            self.should_transform,
        );
        de.deserialize(shape, unused)
    }
}

/// Decodes the entries of a mapping into the keys and values of a map.
pub fn visit_mapping_ref<'p, 'v, F: FieldTransformer>(
    entries: &'v Vec<(Value, Value)>,
    path: Path<'p>,
    m: &MapShape,
    transformer: &'v F,
    should_transform: bool,
    unused: &mut Vec<UnusedKey>,
) -> (r: Result<Decoded, Error>)
    ensures
        agrees(
            r,
            old(unused)@,
            final(unused)@,
            as_mapping(
                map_entries(
                    transformer,
                    pair_views(entries@),
                    m,
                    should_transform,
                    path@,
                    0,
                    Seq::empty(),
                    Seq::empty(),
                ),
            ),
        ),
    decreases m, 4int, 1int,
{
    let ghost start = unused@;
    let ghost whole = map_entries(
        transformer,
        pair_views(entries@),
        m,
        should_transform,
        path@,
        0,
        Seq::empty(),
        Seq::empty(),
    );
    let mut de = MapRefDeserializer::new(entries, path, transformer, should_transform);
    let mut out: Vec<(Decoded, Decoded)> = Vec::new();
    let ghost mut extra: Seq<UnusedKeyView> = Seq::empty();
    assert(unused_views(unused@) =~= unused_views(start) + extra);
    while de.pos < entries.len()
        invariant
            de.entries == entries,
            de.path == path,
            de.transformer == transformer,
            de.should_transform == should_transform,
            de.pos <= entries.len(),
            !de.pending,
            start == old(unused)@,
            whole == map_entries(
                transformer,
                pair_views(entries@),
                m,
                should_transform,
                path@,
                0,
                Seq::empty(),
                Seq::empty(),
            ),
            unused_views(unused@) == unused_views(start) + extra,
            whole == map_entries(
                transformer,
                pair_views(entries@),
                m,
                should_transform,
                path@,
                de.pos as int,
                decoded_pair_views(out@),
                extra,
            ),
        decreases entries.len() - de.pos,
    {
        let ghost k = de.spec_key(&m.key);
        let ghost o = de.spec_value(&m.value);
        let key = match de.next_key_seed(&m.key, unused) {
            Err(e) => {
                assert(unused_views(unused@) =~= unused_views(start) + (extra + k.unused));
                return Err(e);
            },
            Ok(None) => {
                assert(false);
                return Ok(Decoded::Unit);
            },
            Ok(Some(d)) => d,
        };
        match de.next_value_seed(&m.value, unused) {
            Err(e) => {
                assert(unused_views(unused@) =~= unused_views(start) + (extra + k.unused
                    + o.unused));
                return Err(e);
            },
            Ok(value) => {
                proof {
                    lemma_decoded_pair_views_push(out@, key, value);
                    assert(unused_views(unused@) =~= unused_views(start) + (extra + k.unused
                        + o.unused));
                    extra = extra + k.unused + o.unused;
                }
                out.push((key, value));
            },
        }
    }
    Ok(Decoded::Mapping(out))
}

} // verus!
