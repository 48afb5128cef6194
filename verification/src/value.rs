//! The document tree: scalars, sequences, insertion-ordered mappings and
//! tagged values, each node with the span of source text it came from.

use crate::number::Number;
use crate::span::Span;
use crate::text::spec_nobang;
use vstd::prelude::*;

verus! {

/// The mathematical model of a [`Value`]: texts are sequences of characters,
/// and the children of a node are a sequence of models.
pub ghost enum ValueView {
    Null(Span),
    Bool(bool, Span),
    Number(Number, Span),
    String(Seq<char>, Span),
    Sequence(Seq<ValueView>, Span),
    Mapping(Seq<(ValueView, ValueView)>, Span),
    Tagged(Seq<char>, Box<ValueView>, Span),
}

impl ValueView {
    /// The span that the node carries.
    pub open spec fn span(self) -> Span {
        match self {
            ValueView::Null(s) => s,
            ValueView::Bool(_, s) => s,
            ValueView::Number(_, s) => s,
            ValueView::String(_, s) => s,
            ValueView::Sequence(_, s) => s,
            ValueView::Mapping(_, s) => s,
            ValueView::Tagged(_, _, s) => s,
        }
    }

    /// The same node with another span.
    pub open spec fn with_span(self, span: Span) -> ValueView {
        match self {
            ValueView::Null(_) => ValueView::Null(span),
            ValueView::Bool(b, _) => ValueView::Bool(b, span),
            ValueView::Number(n, _) => ValueView::Number(n, span),
            ValueView::String(t, _) => ValueView::String(t, span),
            ValueView::Sequence(items, _) => ValueView::Sequence(items, span),
            ValueView::Mapping(entries, _) => ValueView::Mapping(entries, span),
            ValueView::Tagged(tag, inner, _) => ValueView::Tagged(tag, inner, span),
        }
    }

    /// The node under all of its tags.
    pub open spec fn untag(self) -> ValueView
        decreases self,
    {
        match self {
            ValueView::Tagged(_, inner, _) => inner.untag(),
            _ => self,
        }
    }
}

/// Structural equality of two trees, ignoring every span. Numbers are
/// compared by what they denote, tags without their leading `!`, and
/// mappings without regard to the order of their entries.
pub open spec fn same(a: ValueView, b: ValueView) -> bool
    decreases a,
{
    match (a, b) {
        (ValueView::Null(_), ValueView::Null(_)) => true,
        (ValueView::Bool(x, _), ValueView::Bool(y, _)) => x == y,
        (ValueView::Number(x, _), ValueView::Number(y, _)) => x.spec_same(&y),
        (ValueView::String(x, _), ValueView::String(y, _)) => x == y,
        (ValueView::Sequence(x, _), ValueView::Sequence(y, _)) => {
            &&& x.len() == y.len()
            &&& forall|i: int| 0 <= i < x.len() ==> same(#[trigger] x[i], y[i])
        },
        (ValueView::Mapping(x, _), ValueView::Mapping(y, _)) => {
            &&& x.len() == y.len()
            &&& forall|i: int| 0 <= i < x.len() ==> entry_in(#[trigger] x[i], y)
        },
        (ValueView::Tagged(s, u, _), ValueView::Tagged(t, v, _)) => {
            &&& spec_nobang(s) == spec_nobang(t)
            &&& same(*u, *v)
        },
        _ => false,
    }
}

/// Some entry of `entries` has a key and a value equal to those of `entry`.
pub open spec fn entry_in(
    entry: (ValueView, ValueView),
    entries: Seq<(ValueView, ValueView)>,
) -> bool
    decreases entry,
{
    exists|j: int|
        0 <= j < entries.len() && same(entry.0, (#[trigger] entries[j]).0) && same(
            entry.1,
            entries[j].1,
        )
}

/// No two entries have keys that are equal.
pub open spec fn unique_keys(entries: Seq<(ValueView, ValueView)>) -> bool {
    forall|i: int, j: int|
        0 <= i < j < entries.len() ==> !same((#[trigger] entries[i]).0, (#[trigger] entries[j]).0)
}

/// The index of the first entry whose key equals `key`, or the number of
/// entries if there is none.
pub open spec fn position_of(entries: Seq<(ValueView, ValueView)>, key: ValueView) -> int
    decreases entries.len(),
{
    if entries.len() == 0 {
        0
    } else if same(entries[0].0, key) {
        0
    } else {
        1 + position_of(entries.subrange(1, entries.len() as int), key)
    }
}

/// A value with an explicit type tag.
#[derive(Debug)]
pub struct TaggedValue {
    /// The tag, as written.
    pub tag: String,
    /// The value that the tag annotates.
    pub value: Value,
}

/// An insertion-ordered collection of key/value pairs whose keys are
/// pairwise unequal.
#[derive(Debug)]
pub struct Mapping {
    entries: Vec<(Value, Value)>,
}

/// A node of the document tree.
#[derive(Debug)]
pub enum Value {
    /// The null scalar.
    Null(Span),
    /// A boolean scalar.
    Bool(bool, Span),
    /// A numeric scalar.
    Number(Number, Span),
    /// A text scalar.
    String(String, Span),
    /// A sequence of nodes.
    Sequence(Vec<Value>, Span),
    /// A mapping from nodes to nodes.
    Mapping(Mapping, Span),
    /// A node with an explicit type tag.
    Tagged(Box<TaggedValue>, Span),
}

impl View for Mapping {
    type V = Seq<(ValueView, ValueView)>;

    open spec fn view(&self) -> Seq<(ValueView, ValueView)> {
        self.model()
    }
}

impl Mapping {
    /// The entries in insertion order, each as the models of its key and of
    /// its value.
    pub closed spec fn model(&self) -> Seq<(ValueView, ValueView)>
        decreases self,
    {
        pair_views(self.entries@)
    }
}

/// The models of a sequence of values.
pub open spec fn views(items: Seq<Value>) -> Seq<ValueView>
    decreases items,
{
    if items.len() == 0 {
        Seq::empty()
    } else {
        views(items.drop_last()).push(items.last().model())
    }
}

/// The models of a sequence of key/value pairs.
pub open spec fn pair_views(entries: Seq<(Value, Value)>) -> Seq<(ValueView, ValueView)>
    decreases entries,
{
    if entries.len() == 0 {
        Seq::empty()
    } else {
        pair_views(entries.drop_last()).push((entries.last().0.model(), entries.last().1.model()))
    }
}

/// The model of a sequence of values holds the model of each value, in order.
pub broadcast proof fn lemma_views(items: Seq<Value>)
    ensures
        #![trigger views(items)]
        views(items).len() == items.len(),
        forall|i: int| 0 <= i < items.len() ==> (#[trigger] views(items)[i]) == items[i]@,
    decreases items.len(),
{
    if items.len() > 0 {
        lemma_views(items.drop_last());
    }
}

/// The model of a sequence of pairs holds the models of each pair, in order.
pub broadcast proof fn lemma_pair_views(entries: Seq<(Value, Value)>)
    ensures
        #![trigger pair_views(entries)]
        pair_views(entries).len() == entries.len(),
        forall|i: int|
            0 <= i < entries.len() ==> (#[trigger] pair_views(entries)[i]) == (
                entries[i].0@,
                entries[i].1@,
            ),
    decreases entries.len(),
{
    if entries.len() > 0 {
        lemma_pair_views(entries.drop_last());
    }
}

impl Value {
    /// The model of the tree.
    pub open spec fn model(&self) -> ValueView
        decreases self,
    {
        match self {
            Value::Null(span) => ValueView::Null(*span),
            Value::Bool(b, span) => ValueView::Bool(*b, *span),
            Value::Number(n, span) => ValueView::Number(*n, *span),
            Value::String(s, span) => ValueView::String(s@, *span),
            Value::Sequence(items, span) => ValueView::Sequence(views(items@), *span),
            Value::Mapping(m, span) => ValueView::Mapping(m.model(), *span),
            Value::Tagged(t, span) => ValueView::Tagged(t.tag@, Box::new(t.value.model()), *span),
        }
    }
}

impl View for Value {
    type V = ValueView;

    open spec fn view(&self) -> ValueView {
        self.model()
    }
}

/// Adding a pair at the end of a sequence adds its models at the end of the
/// models.
pub proof fn lemma_pair_views_push(entries: Seq<(Value, Value)>, k: Value, v: Value)
    ensures
        pair_views(entries.push((k, v))) == pair_views(entries).push((k@, v@)),
{
    assert(entries.push((k, v)).drop_last() =~= entries);
}

/// Adding a value at the end of a sequence adds its model at the end of the
/// models.
pub proof fn lemma_views_push(items: Seq<Value>, v: Value)
    ensures
        views(items.push(v)) == views(items).push(v@),
{
    assert(items.push(v).drop_last() =~= items);
}

fn clone_items(items: &Vec<Value>) -> (r: Vec<Value>)
    ensures
        views(r@) == views(items@),
    decreases items,
{
    broadcast use lemma_views;

    let mut out: Vec<Value> = Vec::new();
    let mut i: usize = 0;
    while i < items.len()
        invariant
            i <= items.len(),
            out.len() == i,
            forall|k: int| 0 <= k < i ==> out[k]@ == items[k]@,
        decreases items.len() - i,
    {
        let c = items[i].duplicate();
        out.push(c);
        i += 1;
    }
    assert(views(out@) =~= views(items@));
    out
}

impl Mapping {
    #[verifier::type_invariant]
    closed spec fn unique(&self) -> bool {
        unique_keys(self@)
    }

    /// The empty mapping.
    pub fn new() -> (m: Mapping)
        ensures
            m@ == Seq::<(ValueView, ValueView)>::empty(),
    {
        let m = Mapping { entries: Vec::new() };
        assert(m@ =~= Seq::<(ValueView, ValueView)>::empty());
        m
    }

    /// The number of entries.
    pub fn len(&self) -> (n: usize)
        ensures
            n == self@.len(),
            unique_keys(self@),
    {
        proof {
            lemma_pair_views(self.entries@);
        }
        proof {
            use_type_invariant(self);
        }
        self.entries.len()
    }

    /// True if the mapping has no entry.
    pub fn is_empty(&self) -> (b: bool)
        ensures
            b == (self@.len() == 0),
    {
        proof {
            lemma_pair_views(self.entries@);
        }
        self.entries.len() == 0
    }

    /// Collects pairs into a mapping by inserting them in turn: of two pairs
    /// with equal keys, the first keeps its place and the second gives the
    /// value.
    pub fn from_entries(entries: Vec<(Value, Value)>) -> (m: Mapping)
        ensures
            m@ == spec_collect(pair_views(entries@)),
    {
        let mut m = Mapping::new();
        let ghost all = entries@;
        for entry in it: entries
            invariant
                it.seq() == all,
                m@ == spec_collect(pair_views(all.take(it.index() as int))),
        {
            let ghost i = it.index() as int;
            proof {
                assert(all.take(i + 1).drop_last() =~= all.take(i));
                lemma_pair_views(all.take(i + 1));
                lemma_pair_views(all.take(i));
                assert(pair_views(all.take(i + 1)).drop_last() =~= pair_views(all.take(i)));
            }
            let (k, v) = entry;
            m.insert(k, v);
        }
        proof {
            assert(all.take(all.len() as int) =~= all);
        }
        m
    }

    /// The entries in insertion order.
    pub fn entries(&self) -> (r: &Vec<(Value, Value)>)
        ensures
            pair_views(r@) == self@,
            unique_keys(self@),
            decreases_to!(self => r),
    {
        proof {
            use_type_invariant(self);
        }
        &self.entries
    }

    /// The key of the entry at position `i`, in insertion order.
    pub fn key_at(&self, i: usize) -> (k: &Value)
        requires
            i < self@.len(),
        ensures
            k@ == self@[i as int].0,
    {
        proof {
            lemma_pair_views(self.entries@);
        }
        &self.entries[i].0
    }

    /// The value of the entry at position `i`, in insertion order.
    pub fn value_at(&self, i: usize) -> (v: &Value)
        requires
            i < self@.len(),
        ensures
            v@ == self@[i as int].1,
    {
        proof {
            lemma_pair_views(self.entries@);
        }
        &self.entries[i].1
    }

    /// A copy of the mapping.
    pub fn duplicate(&self) -> (r: Mapping)
        ensures
            r@ == self@,
        decreases self,
    {
        proof {
            lemma_pair_views(self.entries@);
        }
        let mut out: Vec<(Value, Value)> = Vec::new();
        let mut i: usize = 0;
        while i < self.entries.len()
            invariant
                i <= self.entries.len(),
                out.len() == i,
                forall|k: int|
                    0 <= k < i ==> out[k].0@ == self.entries[k].0@ && out[k].1@
                        == self.entries[k].1@,
            decreases self.entries.len() - i,
        {
            let k = self.entries[i].0.duplicate();
            let v = self.entries[i].1.duplicate();
            out.push((k, v));
            i += 1;
        }
        proof {
            use_type_invariant(self);
        }
        proof {
            lemma_pair_views(out@);
            assert(pair_views(out@) =~= self@);
        }
        Mapping { entries: out }
    }
}

impl Value {
    /// A copy of the tree.
    pub fn duplicate(&self) -> (r: Value)
        ensures
            r@ == self@,
        decreases self,
    {
        match self {
            Value::Null(span) => Value::Null(*span),
            Value::Bool(b, span) => Value::Bool(*b, *span),
            Value::Number(n, span) => Value::Number(*n, *span),
            Value::String(s, span) => Value::String(s.clone(), *span),
            Value::Sequence(items, span) => Value::Sequence(clone_items(items), *span),
            Value::Mapping(m, span) => Value::Mapping(m.duplicate(), *span),
            Value::Tagged(t, span) => Value::Tagged(
                Box::new(TaggedValue { tag: t.tag.clone(), value: t.value.duplicate() }),
                *span,
            ),
        }
    }
}

impl Clone for Value {
    fn clone(&self) -> (r: Value)
        ensures
            r@ == self@,
    {
        self.duplicate()
    }
}

impl Clone for Mapping {
    fn clone(&self) -> (r: Mapping)
        ensures
            r@ == self@,
    {
        self.duplicate()
    }
}


/// What [`position_of`] finds: the first entry whose key equals `key`.
pub proof fn lemma_position_of(entries: Seq<(ValueView, ValueView)>, key: ValueView)
    ensures
        0 <= position_of(entries, key) <= entries.len(),
        position_of(entries, key) < entries.len() ==> same(
            entries[position_of(entries, key)].0,
            key,
        ),
        forall|i: int|
            0 <= i < position_of(entries, key) ==> !same((#[trigger] entries[i]).0, key),
    decreases entries.len(),
{
    if entries.len() > 0 && !same(entries[0].0, key) {
        let rest = entries.subrange(1, entries.len() as int);
        lemma_position_of(rest, key);
        assert forall|i: int| 0 <= i < position_of(entries, key) implies !same(
            (#[trigger] entries[i]).0,
            key,
        ) by {
            if i > 0 {
                assert(entries[i] == rest[i - 1]);
            }
        }
    }
}

/// The first entry whose key equals `key` is where [`position_of`] points.
pub proof fn lemma_position_is(entries: Seq<(ValueView, ValueView)>, key: ValueView, p: int)
    requires
        0 <= p <= entries.len(),
        p < entries.len() ==> same(entries[p].0, key),
        forall|i: int| 0 <= i < p ==> !same((#[trigger] entries[i]).0, key),
    ensures
        position_of(entries, key) == p,
{
    lemma_position_of(entries, key);
    let q = position_of(entries, key);
    if q < p {
        assert(!same(entries[q].0, key));
    } else if p < q {
        assert(!same(entries[p].0, key));
    }
}

/// The entries after `(key, value)` was inserted: the value of the first
/// entry with an equal key is replaced, or the pair is added at the end.
pub open spec fn spec_insert(
    entries: Seq<(ValueView, ValueView)>,
    key: ValueView,
    value: ValueView,
) -> Seq<(ValueView, ValueView)> {
    let p = position_of(entries, key);
    if p < entries.len() {
        entries.update(p, (entries[p].0, value))
    } else {
        entries.push((key, value))
    }
}

/// The mapping that a sequence of pairs collects into: each pair is inserted
/// in turn, so that of two pairs with equal keys the first keeps its place
/// and the second gives the value.
pub open spec fn spec_collect(entries: Seq<(ValueView, ValueView)>) -> Seq<(ValueView, ValueView)>
    decreases entries.len(),
{
    if entries.len() == 0 {
        Seq::empty()
    } else {
        spec_insert(spec_collect(entries.drop_last()), entries.last().0, entries.last().1)
    }
}

/// The value under the first key that equals `key`, if there is one.
pub open spec fn spec_get(entries: Seq<(ValueView, ValueView)>, key: ValueView) -> Option<
    ValueView,
> {
    let p = position_of(entries, key);
    if p < entries.len() {
        Some(entries[p].1)
    } else {
        None
    }
}

/// The entries without the first one whose key equals `key`.
pub open spec fn spec_remove(entries: Seq<(ValueView, ValueView)>, key: ValueView) -> Seq<
    (ValueView, ValueView),
> {
    let p = position_of(entries, key);
    if p < entries.len() {
        entries.remove(p)
    } else {
        entries
    }
}

fn items_same(a: &Vec<Value>, b: &Vec<Value>) -> (r: bool)
    ensures
        r == (views(a@).len() == views(b@).len() && forall|i: int|
            0 <= i < views(a@).len() ==> same(#[trigger] views(a@)[i], views(b@)[i])),
    decreases a,
{
    proof {
        lemma_views(a@);
        lemma_views(b@);
    }
    if a.len() != b.len() {
        return false;
    }
    let mut i: usize = 0;
    while i < a.len()
        invariant
            i <= a.len(),
            a.len() == b.len(),
            views(a@).len() == a.len(),
            views(b@).len() == b.len(),
            forall|k: int| 0 <= k < a.len() ==> (#[trigger] views(a@)[k]) == a[k]@,
            forall|k: int| 0 <= k < b.len() ==> (#[trigger] views(b@)[k]) == b[k]@,
            forall|k: int| 0 <= k < i ==> same(#[trigger] views(a@)[k], views(b@)[k]),
        decreases a.len() - i,
    {
        if !a[i].same(&b[i]) {
            assert(!same(views(a@)[i as int], views(b@)[i as int]));
            return false;
        }
        i += 1;
    }
    true
}

impl Mapping {
    /// The position of the first entry whose key equals `key`.
    pub fn index_of(&self, key: &Value) -> (r: Option<usize>)
        ensures
            match r {
                Some(i) => i < self@.len() && i == position_of(self@, key@),
                None => position_of(self@, key@) == self@.len(),
            },
    {
        proof {
            lemma_pair_views(self.entries@);
        }
        let mut i: usize = 0;
        while i < self.entries.len()
            invariant
                i <= self.entries.len(),
                self@.len() == self.entries.len(),
                forall|k: int|
                    0 <= k < self.entries.len() ==> (#[trigger] self@[k]) == (
                        self.entries[k].0@,
                        self.entries[k].1@,
                    ),
                forall|k: int| 0 <= k < i ==> !same((#[trigger] self@[k]).0, key@),
            decreases self.entries.len() - i,
        {
            if self.entries[i].0.same(key) {
                proof {
                    lemma_position_is(self@, key@, i as int);
                }
                return Some(i);
            }
            i += 1;
        }
        proof {
            lemma_position_is(self@, key@, i as int);
        }
        None
    }

    /// True if some key equals `key`.
    pub fn contains_key(&self, key: &Value) -> (b: bool)
        ensures
            b == (position_of(self@, key@) < self@.len()),
    {
        self.index_of(key).is_some()
    }

    /// The value under the key that equals `key`.
    pub fn get(&self, key: &Value) -> (r: Option<&Value>)
        ensures
            match r {
                Some(v) => spec_get(self@, key@) == Some(v@),
                None => spec_get(self@, key@) is None,
            },
    {
        match self.index_of(key) {
            Some(i) => Some(self.value_at(i)),
            None => None,
        }
    }

    /// Inserts a pair. Where a key that equals `key` is present, its value
    /// is replaced and the old value returned; the entry keeps its place and
    /// its key.
    pub fn insert(&mut self, key: Value, value: Value) -> (r: Option<Value>)
        ensures
            final(self)@ == spec_insert(old(self)@, key@, value@),
            match r {
                Some(v) => spec_get(old(self)@, key@) == Some(v@),
                None => spec_get(old(self)@, key@) is None,
            },
    {
        proof {
            use_type_invariant(&*self);
            lemma_pair_views(self.entries@);
            lemma_position_of(self@, key@);
        }
        let ghost before = self@;
        let found = self.index_of(&key);
        let mut taken = Mapping::new();
        core::mem::swap(self, &mut taken);
        let Mapping { entries } = taken;
        let mut entries = entries;
        proof {
            lemma_pair_views(entries@);
        }
        match found {
            Some(i) => {
                let mut entry = entries.remove(i);
                let previous = entry.1;
                entry.1 = value;
                entries.insert(i, entry);
                proof {
                    lemma_pair_views(entries@);
                    let after = pair_views(entries@);
                    assert(after =~= spec_insert(before, key@, value@));
                    assert forall|a: int, b: int| 0 <= a < b < after.len() implies !same(
                        (#[trigger] after[a]).0,
                        (#[trigger] after[b]).0,
                    ) by {
                        assert(after[a].0 == before[a].0);
                        assert(after[b].0 == before[b].0);
                    }
                }
                *self = Mapping { entries };
                Some(previous)
            },
            None => {
                entries.push((key, value));
                proof {
                    lemma_pair_views(entries@);
                    let after = pair_views(entries@);
                    assert(after =~= spec_insert(before, key@, value@));
                    assert forall|a: int, b: int| 0 <= a < b < after.len() implies !same(
                        (#[trigger] after[a]).0,
                        (#[trigger] after[b]).0,
                    ) by {
                        if b < before.len() {
                            assert(after[a].0 == before[a].0);
                            assert(after[b].0 == before[b].0);
                        } else {
                            assert(after[a] == before[a]);
                        }
                    }
                }
                *self = Mapping { entries };
                None
            },
        }
    }

    /// Removes the entry whose key equals `key` and returns its value. The
    /// entries that remain keep their order.
    pub fn remove(&mut self, key: &Value) -> (r: Option<Value>)
        ensures
            final(self)@ == spec_remove(old(self)@, key@),
            match r {
                Some(v) => spec_get(old(self)@, key@) == Some(v@),
                None => spec_get(old(self)@, key@) is None,
            },
    {
        proof {
            use_type_invariant(&*self);
            lemma_pair_views(self.entries@);
        }
        let ghost before = self@;
        match self.index_of(key) {
            Some(i) => {
                let mut taken = Mapping::new();
                core::mem::swap(self, &mut taken);
                let Mapping { entries } = taken;
                let mut entries = entries;
                proof {
                    lemma_pair_views(entries@);
                }
                let entry = entries.remove(i);
                proof {
                    lemma_pair_views(entries@);
                    let after = pair_views(entries@);
                    assert(after =~= spec_remove(before, key@));
                    assert forall|a: int, b: int| 0 <= a < b < after.len() implies !same(
                        (#[trigger] after[a]).0,
                        (#[trigger] after[b]).0,
                    ) by {
                        let a0 = if a < i { a } else { a + 1 };
                        let b0 = if b < i { b } else { b + 1 };
                        assert(after[a].0 == before[a0].0);
                        assert(after[b].0 == before[b0].0);
                    }
                }
                *self = Mapping { entries };
                Some(entry.1)
            },
            None => None,
        }
    }

    /// The keys in insertion order.
    pub fn keys(&self) -> (r: Vec<Value>)
        ensures
            r@.len() == self@.len(),
            forall|i: int| 0 <= i < r@.len() ==> (#[trigger] r@[i])@ == self@[i].0,
    {
        proof {
            lemma_pair_views(self.entries@);
        }
        let mut out: Vec<Value> = Vec::new();
        let mut i: usize = 0;
        while i < self.entries.len()
            invariant
                i <= self.entries.len(),
                out.len() == i,
                self@.len() == self.entries.len(),
                forall|k: int|
                    0 <= k < self.entries.len() ==> (#[trigger] self@[k]) == (
                        self.entries[k].0@,
                        self.entries[k].1@,
                    ),
                forall|k: int| 0 <= k < i ==> (#[trigger] out@[k])@ == self@[k].0,
            decreases self.entries.len() - i,
        {
            out.push(self.entries[i].0.duplicate());
            i += 1;
        }
        out
    }

    /// Compares two mappings entry by entry, whatever the order of the
    /// entries.
    pub fn same(&self, other: &Mapping) -> (r: bool)
        ensures
            r == same(
                ValueView::Mapping(self@, Span::spec_zero()),
                ValueView::Mapping(other@, Span::spec_zero()),
            ),
        decreases self,
    {
        proof {
            lemma_pair_views(self.entries@);
            lemma_pair_views(other.entries@);
        }
        if self.entries.len() != other.entries.len() {
            return false;
        }
        let mut i: usize = 0;
        while i < self.entries.len()
            invariant
                i <= self.entries.len(),
                self.entries.len() == other.entries.len(),
                self@.len() == self.entries.len(),
                other@.len() == other.entries.len(),
                forall|k: int|
                    0 <= k < self.entries.len() ==> (#[trigger] self@[k]) == (
                        self.entries[k].0@,
                        self.entries[k].1@,
                    ),
                forall|k: int|
                    0 <= k < other.entries.len() ==> (#[trigger] other@[k]) == (
                        other.entries[k].0@,
                        other.entries[k].1@,
                    ),
                forall|k: int| 0 <= k < i ==> entry_in(#[trigger] self@[k], other@),
            decreases self.entries.len() - i,
        {
            let mut found = false;
            let mut j: usize = 0;
            while j < other.entries.len() && !found
                invariant
                    j <= other.entries.len(),
                    i < self.entries.len(),
                    self@.len() == self.entries.len(),
                    other@.len() == other.entries.len(),
                    self@[i as int] == (self.entries[i as int].0@, self.entries[i as int].1@),
                    forall|k: int|
                        0 <= k < other.entries.len() ==> (#[trigger] other@[k]) == (
                            other.entries[k].0@,
                            other.entries[k].1@,
                        ),
                    found ==> entry_in(self@[i as int], other@),
                    !found ==> forall|q: int|
                        0 <= q < j ==> !(same(self@[i as int].0, (#[trigger] other@[q]).0) && same(
                            self@[i as int].1,
                            other@[q].1,
                        )),
                decreases other.entries.len() - j + (if found { 0int } else { 1int }),
            {
                if self.entries[i].0.same(&other.entries[j].0) && self.entries[i].1.same(
                    &other.entries[j].1,
                ) {
                    found = true;
                    assert(same(self@[i as int].0, other@[j as int].0) && same(
                        self@[i as int].1,
                        other@[j as int].1,
                    ));
                } else {
                    j += 1;
                }
            }
            if !found {
                assert(!entry_in(self@[i as int], other@));
                return false;
            }
            i += 1;
        }
        true
    }
}

impl Value {
    /// Compares two trees, ignoring their spans.
    pub fn same(&self, other: &Value) -> (r: bool)
        ensures
            r == same(self@, other@),
        decreases self,
    {
        match (self, other) {
            (Value::Null(_), Value::Null(_)) => true,
            (Value::Bool(x, _), Value::Bool(y, _)) => *x == *y,
            (Value::Number(x, _), Value::Number(y, _)) => x.same(y),
            (Value::String(x, _), Value::String(y, _)) => *x == *y,
            (Value::Sequence(x, _), Value::Sequence(y, _)) => items_same(x, y),
            (Value::Mapping(x, _), Value::Mapping(y, _)) => x.same(y),
            (Value::Tagged(x, _), Value::Tagged(y, _)) => {
                crate::text::same_text(
                    crate::text::nobang(x.tag.as_str()),
                    crate::text::nobang(y.tag.as_str()),
                ) && x.value.same(&y.value)
            },
            _ => false,
        }
    }
}


impl Value {
    /// The null scalar, without a span.
    pub fn null() -> (v: Value)
        ensures
            v@ == ValueView::Null(Span::spec_zero()),
    {
        Value::Null(Span::zero())
    }

    /// A boolean scalar, without a span.
    pub fn bool(b: bool) -> (v: Value)
        ensures
            v@ == ValueView::Bool(b, Span::spec_zero()),
    {
        Value::Bool(b, Span::zero())
    }

    /// A numeric scalar, without a span.
    pub fn number(n: Number) -> (v: Value)
        ensures
            v@ == ValueView::Number(n, Span::spec_zero()),
    {
        Value::Number(n, Span::zero())
    }

    /// A text scalar, without a span.
    pub fn string(s: String) -> (v: Value)
        ensures
            v@ == ValueView::String(s@, Span::spec_zero()),
    {
        Value::String(s, Span::zero())
    }

    /// A sequence node, without a span.
    pub fn sequence(items: Vec<Value>) -> (v: Value)
        ensures
            v@ == ValueView::Sequence(views(items@), Span::spec_zero()),
    {
        Value::Sequence(items, Span::zero())
    }

    /// A mapping node, without a span.
    pub fn mapping(m: Mapping) -> (v: Value)
        ensures
            v@ == ValueView::Mapping(m@, Span::spec_zero()),
    {
        Value::Mapping(m, Span::zero())
    }

    /// A tagged node, without a span.
    pub fn tagged(tag: String, value: Value) -> (v: Value)
        ensures
            v@ == ValueView::Tagged(tag@, Box::new(value@), Span::spec_zero()),
    {
        Value::Tagged(Box::new(TaggedValue { tag, value }), Span::zero())
    }

    /// The span that the node carries.
    pub fn span(&self) -> (s: Span)
        ensures
            s == self@.span(),
    {
        match self {
            Value::Null(span) => *span,
            Value::Bool(_, span) => *span,
            Value::Number(_, span) => *span,
            Value::String(_, span) => *span,
            Value::Sequence(_, span) => *span,
            Value::Mapping(_, span) => *span,
            Value::Tagged(_, span) => *span,
        }
    }

    /// The same node with another span. The spans of its children stay.
    pub fn with_span(self, span: Span) -> (v: Value)
        ensures
            v@ == self@.with_span(span),
    {
        match self {
            Value::Null(_) => Value::Null(span),
            Value::Bool(b, _) => Value::Bool(b, span),
            Value::Number(n, _) => Value::Number(n, span),
            Value::String(s, _) => Value::String(s, span),
            Value::Sequence(items, _) => Value::Sequence(items, span),
            Value::Mapping(m, _) => Value::Mapping(m, span),
            Value::Tagged(t, _) => Value::Tagged(t, span),
        }
    }

    /// The node under all of its tags.
    pub fn untag_ref(&self) -> (v: &Value)
        ensures
            v@ == self@.untag(),
            !(v@ is Tagged),
        decreases self,
    {
        match self {
            Value::Tagged(t, _) => t.value.untag_ref(),
            _ => self,
        }
    }

    /// True if the node is the null scalar.
    pub fn is_null(&self) -> (b: bool)
        ensures
            b == (self@ is Null),
    {
        match self {
            Value::Null(_) => true,
            _ => false,
        }
    }

    /// True if the node is a boolean scalar.
    pub fn is_bool(&self) -> (b: bool)
        ensures
            b == (self@ is Bool),
    {
        match self {
            Value::Bool(_, _) => true,
            _ => false,
        }
    }

    /// True if the node is a numeric scalar.
    pub fn is_number(&self) -> (b: bool)
        ensures
            b == (self@ is Number),
    {
        match self {
            Value::Number(_, _) => true,
            _ => false,
        }
    }

    /// True if the node is a numeric scalar that is held as a float.
    pub fn is_f64(&self) -> (b: bool)
        ensures
            b == (self@ matches ValueView::Number(n, _) && n is Float),
    {
        match self {
            Value::Number(n, _) => n.is_f64(),
            _ => false,
        }
    }

    /// True if the node is a text scalar.
    pub fn is_string(&self) -> (b: bool)
        ensures
            b == (self@ is String),
    {
        match self {
            Value::String(_, _) => true,
            _ => false,
        }
    }

    /// True if the node is a sequence.
    pub fn is_sequence(&self) -> (b: bool)
        ensures
            b == (self@ is Sequence),
    {
        match self {
            Value::Sequence(_, _) => true,
            _ => false,
        }
    }

    /// True if the node is a mapping.
    pub fn is_mapping(&self) -> (b: bool)
        ensures
            b == (self@ is Mapping),
    {
        match self {
            Value::Mapping(_, _) => true,
            _ => false,
        }
    }

    /// The boolean that the node holds, if it is a boolean scalar.
    pub fn as_bool(&self) -> (r: Option<bool>)
        ensures
            r == (match self@ {
                ValueView::Bool(b, _) => Some(b),
                _ => None::<bool>,
            }),
    {
        match self {
            Value::Bool(b, _) => Some(*b),
            _ => None,
        }
    }

    /// The integer that the node holds, if it is one that fits in `i64`.
    pub fn as_i64(&self) -> (r: Option<i64>)
        ensures
            r == (match self@ {
                ValueView::Number(n, _) => n.spec_as_i64(),
                _ => None::<i64>,
            }),
    {
        match self {
            Value::Number(n, _) => n.as_i64(),
            _ => None,
        }
    }

    /// The integer that the node holds, if it is one that fits in `u64`.
    pub fn as_u64(&self) -> (r: Option<u64>)
        ensures
            r == (match self@ {
                ValueView::Number(n, _) => n.spec_as_u64(),
                _ => None::<u64>,
            }),
    {
        match self {
            Value::Number(n, _) => n.as_u64(),
            _ => None,
        }
    }

    /// The text that the node holds, if it is a text scalar.
    pub fn as_str(&self) -> (r: Option<&str>)
        ensures
            match r {
                Some(t) => self@ matches ValueView::String(u, _) && t@ == u,
                None => !(self@ is String),
            },
    {
        match self {
            Value::String(s, _) => Some(s.as_str()),
            _ => None,
        }
    }

    /// The items of the node, if it is a sequence.
    pub fn as_sequence(&self) -> (r: Option<&Vec<Value>>)
        ensures
            match r {
                Some(items) => self@ matches ValueView::Sequence(u, _) && views(items@) == u,
                None => !(self@ is Sequence),
            },
    {
        match self {
            Value::Sequence(items, _) => Some(items),
            _ => None,
        }
    }

    /// The entries of the node, if it is a mapping.
    pub fn as_mapping(&self) -> (r: Option<&Mapping>)
        ensures
            match r {
                Some(m) => self@ matches ValueView::Mapping(u, _) && m@ == u,
                None => !(self@ is Mapping),
            },
    {
        match self {
            Value::Mapping(m, _) => Some(m),
            _ => None,
        }
    }
}

/// The value under the text `key`, if the node is, under its tags, a mapping
/// that holds the key.
pub open spec fn spec_child(v: ValueView, key: Seq<char>) -> Option<ValueView> {
    match v.untag() {
        ValueView::Mapping(entries, _) => spec_get(
            entries,
            ValueView::String(key, Span::spec_zero()),
        ),
        _ => None,
    }
}

/// The item at position `i`, if the node is, under its tags, a sequence that
/// is long enough.
pub open spec fn spec_item(v: ValueView, i: int) -> Option<ValueView> {
    match v.untag() {
        ValueView::Sequence(items, _) => if 0 <= i < items.len() {
            Some(items[i])
        } else {
            None
        },
        _ => None,
    }
}

impl Value {
    /// The value under the text `key` of a mapping.
    pub fn get(&self, key: &str) -> (r: Option<&Value>)
        ensures
            match r {
                Some(v) => spec_child(self@, key@) == Some(v@),
                None => spec_child(self@, key@) is None,
            },
    {
        match self.untag_ref() {
            Value::Mapping(m, _) => {
                let wanted = Value::String(key.to_owned(), Span::zero());
                match m.index_of(&wanted) {
                    Some(i) => Some(m.value_at(i)),
                    None => None,
                }
            },
            _ => None,
        }
    }

    /// The item at position `i` of a sequence.
    pub fn at(&self, i: usize) -> (r: Option<&Value>)
        ensures
            match r {
                Some(v) => spec_item(self@, i as int) == Some(v@),
                None => spec_item(self@, i as int) is None,
            },
    {
        match self.untag_ref() {
            Value::Sequence(items, _) => {
                proof {
                    lemma_views(items@);
                }
                if i < items.len() {
                    Some(&items[i])
                } else {
                    None
                }
            },
            _ => None,
        }
    }
}

impl PartialEq for Value {
    fn eq(&self, other: &Value) -> (r: bool) {
        self.same(other)
    }
}

impl vstd::std_specs::cmp::PartialEqSpecImpl for Value {
    open spec fn obeys_eq_spec() -> bool {
        true
    }

    open spec fn eq_spec(&self, other: &Value) -> bool {
        same(self@, other@)
    }
}

impl PartialEq for Mapping {
    fn eq(&self, other: &Mapping) -> (r: bool) {
        self.same(other)
    }
}

impl vstd::std_specs::cmp::PartialEqSpecImpl for Mapping {
    open spec fn obeys_eq_spec() -> bool {
        true
    }

    open spec fn eq_spec(&self, other: &Mapping) -> bool {
        same(
            ValueView::Mapping(self@, Span::spec_zero()),
            ValueView::Mapping(other@, Span::spec_zero()),
        )
    }
}

} // verus!
