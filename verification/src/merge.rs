//! Expansion of merge keys: a mapping that holds the key `<<` takes over the
//! entries of the mappings that stand under that key.

use crate::error::{Error, ErrorKind, ErrorKindView, ErrorView};
use crate::span::Span;
use crate::value::{
    lemma_pair_views, lemma_position_of, lemma_views, lemma_views_push, pair_views, position_of,
    same, unique_keys, views, Mapping, TaggedValue, Value, ValueView,
};
use vstd::prelude::*;
use vstd::string::*;

verus! {

broadcast use {lemma_views, lemma_pair_views};

/// The merge key.
pub open spec fn merge_key() -> ValueView {
    ValueView::String("<<"@, Span::spec_zero())
}

/// An error of merging at the given node.
pub open spec fn merge_error(kind: ErrorKindView, at: ValueView) -> ErrorView {
    ErrorView { kind, span: at.span() }
}

/// Adds to `acc` the entries of `source` from position `i` on whose keys
/// `acc` does not hold yet.
pub open spec fn add_absent(
    acc: Seq<(ValueView, ValueView)>,
    source: Seq<(ValueView, ValueView)>,
    i: int,
) -> Seq<(ValueView, ValueView)>
    decreases source.len() - i,
{
    if i < 0 || i >= source.len() {
        acc
    } else if position_of(acc, source[i].0) < acc.len() {
        add_absent(acc, source, i + 1)
    } else {
        add_absent(acc.push(source[i]), source, i + 1)
    }
}

/// Adds to `acc` the entries of the mappings in `sources` from position `i`
/// on, in that order, so that an earlier source wins over a later one. An
/// element that is no mapping is an error.
pub open spec fn add_sources(
    acc: Seq<(ValueView, ValueView)>,
    sources: Seq<ValueView>,
    i: int,
) -> Result<Seq<(ValueView, ValueView)>, ErrorView>
    decreases sources.len() - i,
{
    if i < 0 || i >= sources.len() {
        Ok(acc)
    } else {
        match sources[i] {
            ValueView::Mapping(source, _) => add_sources(
                add_absent(acc, source, 0),
                sources,
                i + 1,
            ),
            ValueView::Sequence(_, _) => Err(
                merge_error(ErrorKindView::SequenceInMergeElement, sources[i]),
            ),
            ValueView::Tagged(_, _, _) => Err(
                merge_error(ErrorKindView::TaggedInMerge, sources[i]),
            ),
            _ => Err(merge_error(ErrorKindView::ScalarInMergeElement, sources[i])),
        }
    }
}

/// The entries of a mapping after its merge key was expanded: the entry
/// under the merge key is taken out, every other entry is kept as it is, and
/// the entries of the sources are added behind them where their keys are not
/// present yet.
pub open spec fn expand(entries: Seq<(ValueView, ValueView)>) -> Result<
    Seq<(ValueView, ValueView)>,
    ErrorView,
> {
    let p = position_of(entries, merge_key());
    if p >= entries.len() {
        Ok(entries)
    } else {
        let base = entries.remove(p);
        match entries[p].1 {
            ValueView::Mapping(source, _) => Ok(add_absent(base, source, 0)),
            ValueView::Sequence(sources, _) => add_sources(base, sources, 0),
            ValueView::Tagged(_, _, _) => Err(
                merge_error(ErrorKindView::TaggedInMerge, entries[p].1),
            ),
            _ => Err(merge_error(ErrorKindView::ScalarInMerge, entries[p].1)),
        }
    }
}

/// The tree with every merge key expanded, from the leaves up: the children
/// of a node are resolved before the merge key of the node itself.
pub open spec fn merged(v: ValueView) -> Result<ValueView, ErrorView>
    decreases v, 0int,
{
    match v {
        ValueView::Sequence(items, span) => match merged_items(items, 0, Seq::empty()) {
            Ok(resolved) => Ok(ValueView::Sequence(resolved, span)),
            Err(e) => Err(e),
        },
        ValueView::Mapping(entries, span) => match merged_entries(entries, 0, Seq::empty()) {
            Ok(resolved) => match expand(resolved) {
                Ok(expanded) => Ok(ValueView::Mapping(expanded, span)),
                Err(e) => Err(e),
            },
            Err(e) => Err(e),
        },
        ValueView::Tagged(tag, inner, span) => match merged(*inner) {
            Ok(resolved) => Ok(ValueView::Tagged(tag, Box::new(resolved), span)),
            Err(e) => Err(e),
        },
        _ => Ok(v),
    }
}

/// The items of a sequence from position `i` on, resolved and added to
/// `acc`.
pub open spec fn merged_items(items: Seq<ValueView>, i: int, acc: Seq<ValueView>) -> Result<
    Seq<ValueView>,
    ErrorView,
>
    decreases items, items.len() - i,
{
    if i < 0 || i >= items.len() {
        Ok(acc)
    } else {
        match merged(items[i]) {
            Ok(resolved) => merged_items(items, i + 1, acc.push(resolved)),
            Err(e) => Err(e),
        }
    }
}

/// The entries of a mapping from position `i` on, each with its value
/// resolved, added to `acc`.
pub open spec fn merged_entries(
    entries: Seq<(ValueView, ValueView)>,
    i: int,
    acc: Seq<(ValueView, ValueView)>,
) -> Result<Seq<(ValueView, ValueView)>, ErrorView>
    decreases entries, entries.len() - i,
{
    if i < 0 || i >= entries.len() {
        Ok(acc)
    } else {
        match merged(entries[i].1) {
            Ok(resolved) => merged_entries(entries, i + 1, acc.push((entries[i].0, resolved))),
            Err(e) => Err(e),
        }
    }
}

/// True if the key is the merge key.
pub open spec fn is_merge_key(k: ValueView) -> bool {
    k matches ValueView::String(s, _) && s == "<<"@
}

/// No entry has the merge key as its key, and no value holds a merge key.
pub open spec fn clean(entries: Seq<(ValueView, ValueView)>) -> bool
    decreases entries, 0int,
{
    forall|i: int|
        0 <= i < entries.len() ==> !is_merge_key((#[trigger] entries[i]).0) && merge_free(
            entries[i].1,
        )
}

/// No mapping in the tree has the merge key as a key.
pub open spec fn merge_free(v: ValueView) -> bool
    decreases v, 1int,
{
    match v {
        ValueView::Sequence(items, _) => forall|i: int|
            0 <= i < items.len() ==> merge_free(#[trigger] items[i]),
        ValueView::Mapping(entries, _) => clean(entries),
        ValueView::Tagged(_, inner, _) => merge_free(*inner),
        _ => true,
    }
}

/// Every value of the entries is free of merge keys.
pub open spec fn values_merge_free(entries: Seq<(ValueView, ValueView)>) -> bool {
    forall|i: int| 0 <= i < entries.len() ==> merge_free((#[trigger] entries[i]).1)
}

/// Adding the entries of a clean source to clean entries gives clean
/// entries.
pub proof fn lemma_add_absent_is_clean(
    acc: Seq<(ValueView, ValueView)>,
    source: Seq<(ValueView, ValueView)>,
    i: int,
)
    requires
        clean(acc),
        clean(source),
    ensures
        clean(add_absent(acc, source, i)),
    decreases source.len() - i,
{
    if 0 <= i < source.len() {
        if position_of(acc, source[i].0) < acc.len() {
            lemma_add_absent_is_clean(acc, source, i + 1);
        } else {
            let more = acc.push(source[i]);
            assert forall|j: int| 0 <= j < more.len() implies !is_merge_key(
                (#[trigger] more[j]).0,
            ) && merge_free(more[j].1) by {
                if j < acc.len() {
                    assert(more[j] == acc[j]);
                } else {
                    assert(more[j] == source[i]);
                }
            }
            lemma_add_absent_is_clean(more, source, i + 1);
        }
    }
}

/// Adding the entries of sources that are free of merge keys to clean
/// entries gives clean entries.
pub proof fn lemma_add_sources_is_clean(
    acc: Seq<(ValueView, ValueView)>,
    sources: Seq<ValueView>,
    i: int,
)
    requires
        clean(acc),
        forall|j: int| 0 <= j < sources.len() ==> merge_free(#[trigger] sources[j]),
    ensures
        add_sources(acc, sources, i) matches Ok(r) ==> clean(r),
    decreases sources.len() - i,
{
    if 0 <= i < sources.len() {
        match sources[i] {
            ValueView::Mapping(source, _) => {
                assert(merge_free(sources[i]));
                lemma_add_absent_is_clean(acc, source, 0);
                lemma_add_sources_is_clean(add_absent(acc, source, 0), sources, i + 1);
            },
            _ => {},
        }
    }
}

/// The expansion of the merge key of a mapping with pairwise unequal keys
/// and values that are free of merge keys leaves no merge key behind.
pub proof fn lemma_expand_is_clean(entries: Seq<(ValueView, ValueView)>)
    requires
        unique_keys(entries),
        values_merge_free(entries),
    ensures
        expand(entries) matches Ok(r) ==> clean(r),
{
    let p = position_of(entries, merge_key());
    lemma_position_of(entries, merge_key());
    if p >= entries.len() {
        assert forall|j: int| 0 <= j < entries.len() implies !is_merge_key(
            (#[trigger] entries[j]).0,
        ) && merge_free(entries[j].1) by {
            assert(!same(entries[j].0, merge_key()));
        }
    } else {
        let base = entries.remove(p);
        assert forall|j: int| 0 <= j < base.len() implies !is_merge_key((#[trigger] base[j]).0)
            && merge_free(base[j].1) by {
            if j < p {
                assert(base[j] == entries[j]);
                assert(!same(entries[j].0, merge_key()));
            } else {
                assert(base[j] == entries[j + 1]);
                assert(!same(entries[p].0, entries[j + 1].0));
            }
        }
        assert(merge_free(entries[p].1));
        match entries[p].1 {
            ValueView::Mapping(source, _) => {
                lemma_add_absent_is_clean(base, source, 0);
            },
            ValueView::Sequence(sources, _) => {
                lemma_add_sources_is_clean(base, sources, 0);
            },
            _ => {},
        }
    }
}

/// The model of the result of a tree operation.
pub open spec fn tree_view(r: Result<Value, Error>) -> Result<ValueView, ErrorView> {
    match r {
        Ok(v) => Ok(v@),
        Err(e) => Err(e@),
    }
}

/// The model of the result of an operation on entries.
pub open spec fn entries_view(r: Result<Mapping, Error>) -> Result<
    Seq<(ValueView, ValueView)>,
    ErrorView,
> {
    match r {
        Ok(m) => Ok(m@),
        Err(e) => Err(e@),
    }
}

/// Adds to `acc` the entries of `source` whose keys `acc` does not hold
/// yet.
fn merge_absent(acc: &mut Mapping, source: &Mapping)
    ensures
        final(acc)@ == add_absent(old(acc)@, source@, 0),
{
    let entries = source.entries();
    let mut i: usize = 0;
    while i < entries.len()
        invariant
            i <= entries.len(),
            pair_views(entries@) == source@,
            add_absent(old(acc)@, source@, 0) == add_absent(acc@, source@, i as int),
        decreases entries.len() - i,
    {
        if !acc.contains_key(&entries[i].0) {
            acc.insert(entries[i].0.duplicate(), entries[i].1.duplicate());
        }
        i += 1;
    }
}

/// Adds to `acc` the entries of the mappings in `sources`, in that order.
fn merge_sources(base: Mapping, sources: &Vec<Value>) -> (r: Result<Mapping, Error>)
    ensures
        entries_view(r) == add_sources(base@, views(sources@), 0),
{
    let ghost start = base@;
    let mut acc = base;
    let mut i: usize = 0;
    while i < sources.len()
        invariant
            i <= sources.len(),
            start == base@,
            add_sources(start, views(sources@), 0) == add_sources(acc@, views(sources@), i as int),
        decreases sources.len() - i,
    {
        match &sources[i] {
            Value::Mapping(source, _) => {
                merge_absent(&mut acc, source);
            },
            Value::Sequence(_, span) => {
                return Err(Error::new(ErrorKind::SequenceInMergeElement, *span));
            },
            Value::Tagged(_, span) => {
                return Err(Error::new(ErrorKind::TaggedInMerge, *span));
            },
            other => {
                return Err(Error::new(ErrorKind::ScalarInMergeElement, other.span()));
            },
        }
        i += 1;
    }
    Ok(acc)
}

/// Expands the merge key of a mapping whose values are resolved.
fn expand_merge_key(resolved: Mapping) -> (r: Result<Mapping, Error>)
    requires
        values_merge_free(resolved@),
    ensures
        entries_view(r) == expand(resolved@),
        r matches Ok(expanded) ==> clean(expanded@),
{
    let mut base = resolved;
    let key = Value::string(String::from_str("<<"));
    let _ = base.len();
    proof {
        lemma_position_of(base@, merge_key());
        lemma_expand_is_clean(base@);
    }
    match base.remove(&key) {
        None => Ok(base),
        Some(under) => match under {
            Value::Mapping(source, _) => {
                merge_absent(&mut base, &source);
                Ok(base)
            },
            Value::Sequence(sources, _) => merge_sources(base, &sources),
            Value::Tagged(_, span) => Err(Error::new(ErrorKind::TaggedInMerge, span)),
            other => Err(Error::new(ErrorKind::ScalarInMerge, other.span())),
        },
    }
}

fn resolve_items(items: &Vec<Value>) -> (r: Result<Vec<Value>, Error>)
    ensures
        match r {
            Ok(resolved) => {
                &&& merged_items(views(items@), 0, Seq::empty()) == Ok::<
                    Seq<ValueView>,
                    ErrorView,
                >(views(resolved@))
                &&& forall|j: int|
                    0 <= j < resolved.len() ==> merge_free(#[trigger] views(resolved@)[j])
            },
            Err(e) => merged_items(views(items@), 0, Seq::empty()) == Err::<
                Seq<ValueView>,
                ErrorView,
            >(e@),
        },
    decreases items, 1int,
{
    let mut out: Vec<Value> = Vec::new();
    let mut i: usize = 0;
    while i < items.len()
        invariant
            i <= items.len(),
            merged_items(views(items@), 0, Seq::empty()) == merged_items(
                views(items@),
                i as int,
                views(out@),
            ),
            forall|j: int| 0 <= j < out.len() ==> merge_free(#[trigger] views(out@)[j]),
        decreases items.len() - i,
    {
        match resolve(&items[i]) {
            Ok(v) => {
                proof {
                    lemma_views_push(out@, v);
                }
                out.push(v);
            },
            Err(e) => {
                return Err(e);
            },
        }
        i += 1;
    }
    Ok(out)
}

fn resolve_entries(entries: &Vec<(Value, Value)>) -> (r: Result<Mapping, Error>)
    requires
        unique_keys(pair_views(entries@)),
    ensures
        entries_view(r) == merged_entries(pair_views(entries@), 0, Seq::empty()),
        r matches Ok(resolved) ==> values_merge_free(resolved@),
    decreases entries, 1int,
{
    let mut out = Mapping::new();
    let mut i: usize = 0;
    while i < entries.len()
        invariant
            i <= entries.len(),
            unique_keys(pair_views(entries@)),
            values_merge_free(out@),
            out@.len() == i,
            forall|j: int| 0 <= j < i ==> (#[trigger] out@[j]).0 == pair_views(entries@)[j].0,
            merged_entries(pair_views(entries@), 0, Seq::empty()) == merged_entries(
                pair_views(entries@),
                i as int,
                out@,
            ),
        decreases entries.len() - i,
    {
        match resolve(&entries[i].1) {
            Ok(v) => {
                let k = entries[i].0.duplicate();
                proof {
                    let all = pair_views(entries@);
                    assert forall|j: int| 0 <= j < out@.len() implies !same(
                        (#[trigger] out@[j]).0,
                        k@,
                    ) by {
                        assert(!same(all[j].0, all[i as int].0));
                    }
                    crate::value::lemma_position_is(out@, k@, out@.len() as int);
                }
                out.insert(k, v);
            },
            Err(e) => {
                return Err(e);
            },
        }
        i += 1;
    }
    Ok(out)
}

/// Resolves every merge key of a tree, from the leaves up.
pub fn resolve(v: &Value) -> (r: Result<Value, Error>)
    ensures
        tree_view(r) == merged(v@),
        r matches Ok(resolved) ==> merge_free(resolved@),
    decreases v, 0int,
{
    match v {
        Value::Sequence(items, span) => match resolve_items(items) {
            Ok(resolved) => Ok(Value::Sequence(resolved, *span)),
            Err(e) => Err(e),
        },
        Value::Mapping(m, span) => match resolve_entries(m.entries()) {
            Ok(resolved) => match expand_merge_key(resolved) {
                Ok(expanded) => Ok(Value::Mapping(expanded, *span)),
                Err(e) => Err(e),
            },
            Err(e) => Err(e),
        },
        Value::Tagged(t, span) => match resolve(&t.value) {
            Ok(resolved) => Ok(
                Value::Tagged(Box::new(TaggedValue { tag: t.tag.clone(), value: resolved }), *span),
            ),
            Err(e) => Err(e),
        },
        _ => Ok(v.duplicate()),
    }
}

impl Value {
    /// Expands every merge key in the tree. A mapping that holds the key
    /// `<<` loses that entry and gains the entries of the mappings under it
    /// whose keys it does not hold: an explicit key wins over a merged one,
    /// and an earlier source over a later one. Afterwards no mapping in the
    /// tree holds a merge key. On an error the tree is left as it was.
    pub fn apply_merge(&mut self) -> (r: Result<(), Error>)
        ensures
            match r {
                Ok(_) => merged(old(self)@) == Ok::<ValueView, ErrorView>(final(self)@)
                    && merge_free(final(self)@),
                Err(e) => merged(old(self)@) == Err::<ValueView, ErrorView>(e@) && final(self)@
                    == old(self)@,
            },
    {
        match resolve(&*self) {
            Ok(resolved) => {
                *self = resolved;
                Ok(())
            },
            Err(e) => Err(e),
        }
    }
}

} // verus!
