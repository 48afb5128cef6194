//! The decoder for structs: fields by name, catch-all fields, and what absent
//! fields receive.

use crate::de::{unused_views, FieldTransformer, UnusedKey, UnusedKeyView};
use crate::de::borrowed::ValueRefDeserializer;
use crate::de::maps::path_under;
use crate::de::outcome::{agrees, invalid_length, invalid_type, lemma_unused_push, result_view};
use crate::de::semantics::{
    classify, decode, decode_missing, empty_state, struct_decode, struct_fill, struct_flatten,
    struct_scan, KeyClass, Out, StructState,
};
use crate::decoded::{
    decoded_views, lemma_decoded_pair_views, lemma_decoded_views, lemma_decoded_views_push, Decoded,
    DecodedView,
};
use crate::error::{Error, ErrorKind, ErrorView};
use crate::path::Path;
use crate::shape::{
    field_position, has_flatten_from, is_flatten_field, lemma_field_position,
    lemma_field_position_is, Shape, StructShape,
};
use crate::shouldbe::{ShouldBe, WhyNot};
use crate::span::Span;
use crate::spanned::Spanned;
use crate::text::is_flatten_key;
use crate::value::{
    lemma_pair_views, lemma_pair_views_push, lemma_views, pair_views, Mapping, Value, ValueView,
};
use crate::verbatim::{Verbatim, VerbatimLegacy};
use vstd::prelude::*;
use vstd::string::*;

verus! {

broadcast use {lemma_views, lemma_pair_views, lemma_decoded_views, lemma_decoded_pair_views};

/// The models of the slots of a struct.
pub open spec fn slot_views(slots: Seq<Option<Decoded>>) -> Seq<Option<DecodedView>> {
    slots.map_values(
        |slot: Option<Decoded>|
            match slot {
                Some(d) => Some(d@),
                None => None,
            },
    )
}

/// How the scan of a mapping treats a key.
pub enum KeyKind {
    /// The key names the field at this position.
    Field(usize),
    /// The key goes to the pool from which the catch-all fields are decoded.
    Deferred,
    /// No field takes the key.
    Unmatched,
    /// The key is not a text.
    NotText,
}

impl View for KeyKind {
    type V = KeyClass;

    open spec fn view(&self) -> KeyClass {
        match self {
            KeyKind::Field(f) => KeyClass::Field(*f as int),
            KeyKind::Deferred => KeyClass::Deferred,
            KeyKind::Unmatched => KeyClass::Unmatched,
            KeyKind::NotText => KeyClass::NotText,
        }
    }
}

/// True if some field from position `from` on is a catch-all field.
pub fn has_flatten_after(s: &StructShape, from: usize) -> (b: bool)
    ensures
        b == has_flatten_from(s.fields@, from as int),
{
    let mut k: usize = from;
    while k < s.fields.len()
        invariant
            from <= k,
            forall|j: int| from <= j < k && j < s.fields.len() ==> !is_flatten_field(
                #[trigger] s.fields@[j],
            ),
        decreases s.fields.len() - k,
    {
        if is_flatten_key(s.fields[k].name.as_str()) {
            assert(is_flatten_field(s.fields@[k as int]));
            return true;
        }
        k += 1;
    }
    false
}

/// The position of the field that is called `name` and is not a catch-all
/// field.
pub fn find_field(s: &StructShape, name: &String) -> (r: Option<usize>)
    ensures
        match r {
            Some(f) => f < s.fields.len() && f == field_position(s.fields@, name@),
            None => field_position(s.fields@, name@) == s.fields.len(),
        },
{
    let mut k: usize = 0;
    while k < s.fields.len()
        invariant
            k <= s.fields.len(),
            forall|j: int|
                0 <= j < k ==> !((#[trigger] s.fields@[j]).name@ == name@ && !is_flatten_field(
                    s.fields@[j],
                )),
        decreases s.fields.len() - k,
    {
        if s.fields[k].name == *name && !is_flatten_key(s.fields[k].name.as_str()) {
            proof {
                lemma_field_position_is(s.fields@, name@, k as int);
            }
            return Some(k);
        }
        k += 1;
    }
    proof {
        lemma_field_position_is(s.fields@, name@, k as int);
    }
    None
}

/// Classifies a key of a mapping against the fields of a struct.
pub fn classify_key(key: &Value, s: &StructShape, flatten: bool) -> (r: KeyKind)
    requires
        flatten == has_flatten_from(s.fields@, 0),
    ensures
        r@ == classify(key@, s.fields@),
{
    match key {
        Value::String(name, _) => {
            if is_flatten_key(name.as_str()) {
                KeyKind::Deferred
            } else {
                match find_field(s, name) {
                    Some(f) => KeyKind::Field(f),
                    None => if flatten {
                        KeyKind::Deferred
                    } else {
                        KeyKind::Unmatched
                    },
                }
            }
        },
        _ => KeyKind::NotText,
    }
}

/// What a field receives when its key is absent from the mapping.
pub fn missing_field(shape: &Shape, name: &String, span: Span) -> (r: Result<Decoded, Error>)
    ensures
        result_view(r) == decode_missing(shape, name@, span),
    decreases shape,
{
    match shape {
        Shape::Optional(_) => Ok(Decoded::Optional(None)),
        Shape::Verbatim(inner) => match missing_field(inner, name, span) {
            Ok(_) => Ok(Decoded::Verbatim(Verbatim::new_missing())),
            Err(e) => Err(e),
        },
        Shape::VerbatimLegacy(inner) => match missing_field(inner, name, span) {
            Ok(d) => Ok(Decoded::VerbatimLegacy(VerbatimLegacy::new(Box::new(d)))),
            Err(e) => Err(e),
        },
        Shape::ShouldBe(inner) => match missing_field(inner, name, span) {
            Ok(d) => Ok(Decoded::ShouldBe(ShouldBe::AndIs(Box::new(d)))),
            Err(e) => Ok(
                Decoded::ShouldBe(ShouldBe::ButIsnt { raw: None, why_not: WhyNot::Original(e) }),
            ),
        },
        Shape::Spanned(inner) => match missing_field(inner, name, span) {
            Ok(d) => Ok(Decoded::Spanned(Spanned::with_span(Box::new(d), Span::zero()))),
            Err(e) => Err(e),
        },
        _ => Err(Error::new(ErrorKind::MissingField(name.clone()), span)),
    }
}

/// Gives each field that received nothing what an absent field receives.
pub fn fill_missing(slots: Vec<Option<Decoded>>, s: &StructShape, span: Span) -> (r: Result<
    Vec<Decoded>,
    Error,
>)
    requires
        slots.len() == s.fields.len(),
    ensures
        match r {
            Ok(fields) => struct_fill(s, span, 0, slot_views(slots@), Seq::empty()) == Ok::<
                Seq<DecodedView>,
                ErrorView,
            >(decoded_views(fields@)),
            Err(e) => struct_fill(s, span, 0, slot_views(slots@), Seq::empty()) == Err::<
                Seq<DecodedView>,
                ErrorView,
            >(e@),
        },
{
    let ghost all = slots@;
    let ghost whole = struct_fill(s, span, 0, slot_views(all), Seq::empty());
    let mut out: Vec<Decoded> = Vec::new();
    for slot in it: slots
        invariant
            it.seq() == all,
            all.len() == s.fields.len(),
            out.len() == it.index(),
            whole == struct_fill(s, span, 0, slot_views(all), Seq::empty()),
            whole == struct_fill(s, span, it.index() as int, slot_views(all), decoded_views(out@)),
    {
        let k = out.len();
        assert(slot_views(all)[k as int] == match slot {
            Some(d) => Some(d@),
            None => None::<DecodedView>,
        });
        match slot {
            Some(d) => {
                proof {
                    lemma_decoded_views_push(out@, d);
                }
                out.push(d);
            },
            None => match missing_field(&s.fields[k].shape, &s.fields[k].name, span) {
                Ok(d) => {
                    proof {
                        lemma_decoded_views_push(out@, d);
                    }
                    out.push(d);
                },
                Err(e) => {
                    return Err(e);
                },
            },
        }
    }
    Ok(out)
}

/// A decoder for the entries of a borrowed mapping into the fields of a
/// struct.
pub struct StructRefDeserializer<'p, 'v, F> {
    /// The entries of the mapping.
    pub entries: &'v Vec<(Value, Value)>,
    /// The position of the entry that is scanned next.
    pub pos: usize,
    /// The struct.
    pub shape: &'v StructShape,
    /// The position of the mapping.
    pub path: Path<'p>,
    /// The span of the mapping.
    pub span: Span,
    /// The field transformer.
    pub transformer: &'v F,
    /// The apply-transform flag.
    pub should_transform: bool,
    /// True if entries that no field takes are collected instead of
    /// reported.
    pub collect: bool,
    /// True if the struct has a catch-all field.
    pub flatten: bool,
    /// For each field, what it has received so far.
    pub slots: Vec<Option<Decoded>>,
    /// The entries that wait for the catch-all fields.
    pub rest: Vec<(Value, Value)>,
    /// The entries that no field took, where they are collected.
    pub leftover: Vec<(Value, Value)>,
    /// The reports of unused keys that were made so far.
    pub reported: Vec<UnusedKey>,
}

impl<'p, 'v, F: FieldTransformer> StructRefDeserializer<'p, 'v, F> {
    /// The decoder differs from `other` in its progress alone.
    pub open spec fn same_setup(&self, other: &Self) -> bool {
        &&& self.entries == other.entries
        &&& self.shape == other.shape
        &&& self.path == other.path
        &&& self.span == other.span
        &&& self.transformer == other.transformer
        &&& self.should_transform == other.should_transform
        &&& self.collect == other.collect
        &&& self.flatten == other.flatten
    }

    /// The decoder is in a state that its operations can start from.
    pub open spec fn wf(&self) -> bool {
        &&& self.pos <= self.entries.len()
        &&& self.slots.len() == self.shape.fields.len()
        &&& self.flatten == has_flatten_from(self.shape.fields@, 0)
    }

    /// What the fields have received and what waits for the catch-all
    /// fields.
    pub open spec fn state(&self) -> StructState {
        StructState {
            slots: slot_views(self.slots@),
            rest: pair_views(self.rest@),
            leftover: pair_views(self.leftover@),
        }
    }

    /// What the scan of the entries that are left gives, from this state.
    pub open spec fn scan(&self) -> Out<StructState> {
        struct_scan(
            self.transformer,
            pair_views(self.entries@),
            self.shape,
            self.should_transform,
            self.collect,
            self.path@,
            self.span,
            self.pos as int,
            self.state(),
            unused_views(self.reported@),
        )
    }

    /// What decoding the catch-all fields from position `k` on gives, from
    /// this state.
    pub open spec fn flattened(&self, k: int) -> Out<StructState> {
        struct_flatten(
            self.transformer,
            self.shape,
            self.should_transform,
            self.path@,
            k,
            self.state(),
            unused_views(self.reported@),
        )
    }

    /// A decoder that stands before the first entry.
    pub fn new(
        entries: &'v Vec<(Value, Value)>,
        shape: &'v StructShape,
        path: Path<'p>,
        span: Span,
        transformer: &'v F,
        should_transform: bool,
        collect: bool,
    ) -> (de: Self)
        ensures
            de.entries == entries,
            de.shape == shape,
            de.path == path,
            de.span == span,
            de.transformer == transformer,
            de.should_transform == should_transform,
            de.collect == collect,
            de.pos == 0,
            de.wf(),
            de.state() == empty_state(shape),
            de.reported@ == Seq::<UnusedKey>::empty(),
    {
        let mut slots: Vec<Option<Decoded>> = Vec::new();
        let mut k: usize = 0;
        while k < shape.fields.len()
            invariant
                k <= shape.fields.len(),
                slots.len() == k,
                forall|j: int| 0 <= j < k ==> slots[j] is None,
            decreases shape.fields.len() - k,
        {
            slots.push(None);
            k += 1;
        }
        let de = StructRefDeserializer {
            entries,
            pos: 0,
            shape,
            path,
            span,
            transformer,
            should_transform,
            collect,
            flatten: has_flatten_after(shape, 0),
            slots,
            rest: Vec::new(),
            leftover: Vec::new(),
            reported: Vec::new(),
        };
        proof {
            assert(de.state().slots =~= empty_state(shape).slots);
            assert(de.state().rest =~= empty_state(shape).rest);
            assert(de.state().leftover =~= empty_state(shape).leftover);
        }
        de
    }

    /// True if the struct has a catch-all field.
    pub fn has_flatten(&self) -> (b: bool)
        ensures
            b == has_flatten_from(self.shape.fields@, 0),
    {
        has_flatten_after(self.shape, 0)
    }

    /// Scans the entries up to the next one whose key names a field, and
    /// returns the position of that field, or `None` at the end of the
    /// mapping. The entries that are passed over are deferred, collected or
    /// reported, each as its key demands.
    pub fn next_key_seed(&mut self) -> (r: Result<Option<usize>, Error>)
        requires
            old(self).wf(),
        ensures
            final(self).wf(),
            final(self).same_setup(old(self)),
            final(self).pos >= old(self).pos,
            match r {
                Ok(Some(f)) => {
                    &&& final(self).pos < final(self).entries.len()
                    &&& classify(
                        pair_views(final(self).entries@)[final(self).pos as int].0,
                        final(self).shape.fields@,
                    ) == KeyClass::Field(f as int)
                    &&& f < final(self).shape.fields.len()
                    &&& old(self).scan() == final(self).scan()
                },
                Ok(None) => {
                    &&& final(self).pos == final(self).entries.len()
                    &&& old(self).scan() == final(self).scan()
                },
                Err(e) => old(self).scan() == (Out::<StructState> {
                    result: Err(e@),
                    unused: unused_views(final(self).reported@),
                }),
            },
    {
        while self.pos < self.entries.len()
            invariant
                self.wf(),
                self.same_setup(old(self)),
                self.pos >= old(self).pos,
                old(self).scan() == self.scan(),
            decreases self.entries.len() - self.pos,
        {
            let idx = self.pos;
            let key = &self.entries[idx].0;
            let value = &self.entries[idx].1;
            match classify_key(key, self.shape, self.flatten) {
                KeyKind::Deferred => {
                    let k = key.duplicate();
                    let v = value.duplicate();
                    proof {
                        lemma_pair_views_push(self.rest@, k, v);
                    }
                    self.rest.push((k, v));
                    self.pos = idx + 1;
                },
                KeyKind::Unmatched => {
                    let k = key.duplicate();
                    let v = value.duplicate();
                    if self.collect {
                        proof {
                            lemma_pair_views_push(self.leftover@, k, v);
                        }
                        self.leftover.push((k, v));
                    } else {
                        let report = UnusedKey {
                            path: path_under(&self.path, key).to_string(),
                            key: k,
                            value: v,
                        };
                        proof {
                            lemma_unused_push(self.reported@, report);
                        }
                        self.reported.push(report);
                    }
                    self.pos = idx + 1;
                },
                KeyKind::NotText => {
                    return Err(invalid_type(key, String::from_str("field identifier")));
                },
                KeyKind::Field(f) => {
                    proof {
                        if key@ is String {
                            lemma_field_position(self.shape.fields@, key@->String_0);
                        }
                    }
                    return Ok(Some(f));
                },
            }
        }
        Ok(None)
    }

    /// Decodes the value of the entry at the current position into the field
    /// at position `f`, which its key names.
    pub fn next_value_seed(&mut self, f: usize) -> (r: Result<(), Error>)
        requires
            old(self).wf(),
            old(self).pos < old(self).entries.len(),
            f < old(self).shape.fields.len(),
            classify(
                pair_views(old(self).entries@)[old(self).pos as int].0,
                old(self).shape.fields@,
            ) == KeyClass::Field(f as int),
        ensures
            final(self).wf(),
            final(self).same_setup(old(self)),
            final(self).pos >= old(self).pos,
            match r {
                Ok(_) => old(self).scan() == final(self).scan() && final(self).pos == old(
                    self,
                ).pos + 1,
                Err(e) => old(self).scan() == (Out::<StructState> {
                    result: Err(e@),
                    unused: unused_views(final(self).reported@),
                }),
            },
        decreases old(self).shape, 1int, 0int,
    {
        let idx = self.pos;
        assert(slot_views(self.slots@)[f as int] is Some <==> self.slots[f as int] is Some);
        if self.slots[f].is_some() {
            return Err(
                Error::new(ErrorKind::DuplicateField(self.shape.fields[f].name.clone()), self.span),
            );
        }
        let ghost before = self.reported@;
        let child = path_under(&self.path, &self.entries[idx].0);
        let de = ValueRefDeserializer::new_with(
            &self.entries[idx].1,
            child,
            self.transformer,
            self.should_transform,
        );
        match de.deserialize(&self.shape.fields[f].shape, &mut self.reported) {
            Ok(d) => {
                let ghost slots_before = self.slots@;
                self.slots.set(f, Some(d));
                self.pos = idx + 1;
                proof {
                    assert(slot_views(self.slots@) =~= slot_views(slots_before).update(
                        f as int,
                        Some(d@),
                    ));
                }
                Ok(())
            },
            Err(e) => Err(e),
        }
    }

    /// Decodes the catch-all fields of the struct from the entries that
    /// were deferred, in the order of declaration.
    pub fn deserialize_flatten(&mut self) -> (r: Result<(), Error>)
        requires
            old(self).wf(),
        ensures
            final(self).wf(),
            final(self).same_setup(old(self)),
            final(self).pos == old(self).pos,
            match r {
                Ok(_) => old(self).flattened(0) == (Out::<StructState> {
                    result: Ok(final(self).state()),
                    unused: unused_views(final(self).reported@),
                }),
                Err(e) => old(self).flattened(0) == (Out::<StructState> {
                    result: Err(e@),
                    unused: unused_views(final(self).reported@),
                }),
            },
        decreases old(self).shape, 1int, 1int,
    {
        let mut k: usize = 0;
        while k < self.shape.fields.len()
            invariant
                self.wf(),
                self.same_setup(old(self)),
                self.pos == old(self).pos,
                k <= self.shape.fields.len(),
                old(self).flattened(0) == self.flattened(k as int),
            decreases self.shape.fields.len() - k,
        {
            if is_flatten_key(self.shape.fields[k].name.as_str()) {
                let mut taken: Vec<(Value, Value)> = Vec::new();
                core::mem::swap(&mut taken, &mut self.rest);
                let pool = Mapping::from_entries(taken);
                let below = Path::Mapping {
                    parent: &self.path,
                    key: self.shape.fields[k].name.as_str(),
                };
                let more = has_flatten_after(self.shape, k + 1);
                let ghost slots_before = self.slots@;
                let fde = FlattenRefDeserializer::new(
                    pool,
                    below,
                    self.transformer,
                    self.should_transform,
                );
                match &self.shape.fields[k].shape {
                    Shape::Struct(inner) if more => {
                        match fde.deserialize_struct(inner, &mut self.reported) {
                            Err(e) => {
                                return Err(e);
                            },
                            Ok((d, left)) => {
                                self.slots.set(k, Some(d));
                                self.rest = left;
                                proof {
                                    assert(slot_views(self.slots@) =~= slot_views(
                                        slots_before,
                                    ).update(k as int, Some(d@)));
                                }
                            },
                        }
                    },
                    shape => {
                        match fde.deserialize_any(shape, &mut self.reported) {
                            Err(e) => {
                                return Err(e);
                            },
                            Ok(d) => {
                                self.slots.set(k, Some(d));
                                proof {
                                    assert(slot_views(self.slots@) =~= slot_views(
                                        slots_before,
                                    ).update(k as int, Some(d@)));
                                    assert(pair_views(self.rest@) =~= Seq::<
                                        (ValueView, ValueView),
                                    >::empty());
                                }
                            },
                        }
                    },
                }
            }
            k += 1;
        }
        Ok(())
    }
}

/// A decoder for a catch-all field, over the pool of entries that were
/// deferred to it.
pub struct FlattenRefDeserializer<'p, 'v, F> {
    /// The pool of entries.
    pub pool: Mapping,
    /// The position of the field.
    pub path: Path<'p>,
    /// The field transformer.
    pub transformer: &'v F,
    /// The apply-transform flag.
    pub should_transform: bool,
}

impl<'p, 'v, F: FieldTransformer> FlattenRefDeserializer<'p, 'v, F> {
    /// A decoder for the field at `path` over `pool`.
    pub fn new(pool: Mapping, path: Path<'p>, transformer: &'v F, should_transform: bool) -> (de:
        Self)
        ensures
            de.pool == pool,
            de.path == path,
            de.transformer == transformer,
            de.should_transform == should_transform,
    {
        FlattenRefDeserializer { pool, path, transformer, should_transform }
    }

    /// Decodes the whole pool, as a mapping, into `shape`.
    pub fn deserialize_any(self, shape: &Shape, unused: &mut Vec<UnusedKey>) -> (r: Result<
        Decoded,
        Error,
    >)
        ensures
            agrees(
                r,
                old(unused)@,
                final(unused)@,
                decode(
                    self.transformer,
                    ValueView::Mapping(self.pool@, Span::spec_zero()),
                    shape,
                    self.should_transform,
                    false,
                    self.path@,
                ),
            ),
        decreases shape, 4int, 0int,
    {
        let value = Value::Mapping(self.pool, Span::zero());
        let de = ValueRefDeserializer::new_with(
            &value,
            self.path,
            self.transformer,
            self.should_transform,
        );
        de.deserialize(shape, unused)
    }

    /// Decodes the entries of the pool that `inner` has fields for into
    /// `inner`, and hands back the others.
    pub fn deserialize_struct(self, inner: &StructShape, unused: &mut Vec<UnusedKey>) -> (r:
        Result<(Decoded, Vec<(Value, Value)>), Error>)
        ensures
            struct_agrees(
                r,
                old(unused)@,
                final(unused)@,
                struct_decode(
                    self.transformer,
                    self.pool@,
                    inner,
                    self.should_transform,
                    true,
                    self.path@,
                    Span::spec_zero(),
                ),
            ),
        decreases inner, 3int, 0int,
    {
        visit_struct_ref(
            self.pool.entries(),
            inner,
            self.path,
            Span::zero(),
            self.transformer,
            self.should_transform,
            true,
            unused,
        )
    }
}

/// The result `r` and the reports that were added to the sink are what the
/// outcome `o` of a struct decode says.
pub open spec fn struct_agrees(
    r: Result<(Decoded, Vec<(Value, Value)>), Error>,
    before: Seq<UnusedKey>,
    after: Seq<UnusedKey>,
    o: Out<(DecodedView, Seq<(ValueView, ValueView)>)>,
) -> bool {
    &&& match r {
        Ok(pair) => o.result == Ok::<(DecodedView, Seq<(ValueView, ValueView)>), ErrorView>(
            (pair.0@, pair_views(pair.1@)),
        ),
        Err(e) => o.result == Err::<(DecodedView, Seq<(ValueView, ValueView)>), ErrorView>(e@),
    }
    &&& unused_views(after) == unused_views(before) + o.unused
}

/// Decodes the entries of a mapping into a struct. Returns the struct and
/// the entries that no field took, where those are collected.
pub fn visit_struct_ref<'p, 'v, F: FieldTransformer>(
    entries: &'v Vec<(Value, Value)>,
    s: &'v StructShape,
    path: Path<'p>,
    span: Span,
    transformer: &'v F,
    should_transform: bool,
    collect: bool,
    unused: &mut Vec<UnusedKey>,
) -> (r: Result<(Decoded, Vec<(Value, Value)>), Error>)
    ensures
        struct_agrees(
            r,
            old(unused)@,
            final(unused)@,
            struct_decode(
                transformer,
                pair_views(entries@),
                s,
                should_transform,
                collect,
                path@,
                span,
            ),
        ),
    decreases s, 2int, 0int,
{
    let mut de = StructRefDeserializer::new(
        entries,
        s,
        path,
        span,
        transformer,
        should_transform,
        collect,
    );
    let ghost whole = de.scan();
    let ghost total = struct_decode(
        transformer,
        pair_views(entries@),
        s,
        should_transform,
        collect,
        path@,
        span,
    );
    proof {
        assert(unused_views(de.reported@) =~= Seq::<UnusedKeyView>::empty());
        assert(whole == struct_scan(
            transformer,
            pair_views(entries@),
            s,
            should_transform,
            collect,
            path@,
            span,
            0,
            empty_state(s),
            Seq::empty(),
        ));
    }
    let mut scanning = true;
    let mut failure: Option<Error> = None;
    while scanning
        invariant
            de.wf(),
            de.entries == entries,
            de.shape == s,
            de.path == path,
            de.span == span,
            de.transformer == transformer,
            de.should_transform == should_transform,
            de.collect == collect,
            scanning ==> failure is None && whole == de.scan(),
            !scanning ==> match failure {
                Some(e) => whole == (Out::<StructState> {
                    result: Err(e@),
                    unused: unused_views(de.reported@),
                }),
                None => whole == (Out::<StructState> {
                    result: Ok(de.state()),
                    unused: unused_views(de.reported@),
                }),
            },
        decreases entries.len() - de.pos + (if scanning { 1int } else { 0int }),
    {
        match de.next_key_seed() {
            Err(e) => {
                failure = Some(e);
                scanning = false;
            },
            Ok(None) => {
                scanning = false;
            },
            Ok(Some(f)) => {
                match de.next_value_seed(f) {
                    Err(e) => {
                        failure = Some(e);
                        scanning = false;
                    },
                    Ok(_) => {},
                }
            },
        }
    }
    let outcome: Result<(), Error> = match failure {
        Some(e) => Err(e),
        None => {
            let ghost scanned = de.state();
            let ghost seen = unused_views(de.reported@);
            assert(de.flattened(0) == struct_flatten(
                transformer,
                s,
                should_transform,
                path@,
                0,
                scanned,
                seen,
            ));
            match de.deserialize_flatten() {
                Err(e) => Err(e),
                Ok(_) => {
                    if de.rest.len() > 0 {
                        Err(invalid_length(entries.len(), "fewer elements in struct", span))
                    } else {
                        Ok(())
                    }
                },
            }
        },
    };
    let ghost ended = de.state();
    let StructRefDeserializer { slots, leftover, reported, .. } = de;
    let mut reported = reported;
    let ghost before = unused@;
    let ghost added = reported@;
    unused.append(&mut reported);
    proof {
        assert(unused_views(unused@) =~= unused_views(before) + unused_views(added));
        assert(total.unused == unused_views(added));
    }
    match outcome {
        Err(e) => {
            Err(e)
        },
        Ok(_) => match fill_missing(slots, s, span) {
            Err(e) => Err(e),
            Ok(fields) => Ok((Decoded::Struct(fields), leftover)),
        },
    }
}

} // verus!
