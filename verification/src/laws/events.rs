//! Laws of building a document from events: the spans that nodes receive,
//! and what becomes of a key that occurs twice.

use crate::de::semantics::child_path;
use crate::error::{ErrorKindView, ErrorView};
use crate::events::{
    mark_at, parse_document, parse_entries, parse_items, parse_node, Built, DuplicateKey,
    DuplicateKeyPolicy, Event,
};
use crate::path::PathView;
use crate::span::Span;
use crate::value::{position_of, ValueView};
use vstd::prelude::*;

verus! {

/// A node that is built from events carries the span from the start of its
/// first event to the position that the parse is at behind its last event.
/// (An alias carries the span of the node that it refers to.)
pub proof fn law_node_span<P: DuplicateKeyPolicy>(
    policy: P,
    events: Seq<Event>,
    i: int,
    anchors: Seq<(Seq<char>, ValueView)>,
    path: PathView,
)
    requires
        0 <= i < events.len(),
        !(events[i].kind is Alias),
    ensures
        parse_node(&policy, events, i, anchors, path) matches Ok(b) ==> b.value.span() == (Span {
            start: events[i].start,
            end: mark_at(events, b.next),
        }),
{
}

/// The root of a document spans the whole of its events, from the start of
/// the first to the end of the last, and that span is valid where the two
/// markers are set and in order.
pub proof fn law_document_span<P: DuplicateKeyPolicy>(policy: P, events: Seq<Event>)
    requires
        events.len() > 0,
        !(events[0].kind is Alias),
    ensures
        parse_document(&policy, events) matches Ok(root) ==> {
            &&& root.span() == (Span {
                start: events[0].start,
                end: events[events.len() - 1].end,
            })
            &&& (events[0].start.is_set() && events[events.len() - 1].end.is_set()
                && events[0].start.index <= events[events.len() - 1].end.index)
                ==> root.span().spec_is_valid()
        },
{
    law_node_span(policy, events, 0, Seq::empty(), PathView::Root);
}

/// What becomes of a key that occurs a second time in one mapping: where
/// the policy says `Error` the parse fails with an error that names the path
/// of the key; where it says `Last` the later value takes the place of the
/// first; where it says `First` the first value stays.
pub proof fn law_duplicate_key<P: DuplicateKeyPolicy>(
    policy: P,
    events: Seq<Event>,
    j: int,
    anchors: Seq<(Seq<char>, ValueView)>,
    path: PathView,
    acc: Seq<(ValueView, ValueView)>,
    key: Built,
    value: Built,
)
    requires
        0 <= j < events.len(),
        !(events[j].kind is MappingEnd),
        parse_node(&policy, events, j, anchors, path.unknown()) == Ok::<Built, ErrorView>(key),
        j < key.next <= events.len(),
        parse_node(&policy, events, key.next, key.anchors, child_path(path, key.value)) == Ok::<
            Built,
            ErrorView,
        >(value),
        key.next < value.next <= events.len(),
        0 <= position_of(acc, key.value) < acc.len(),
    ensures
        ({
            let p = position_of(acc, key.value);
            let below = child_path(path, key.value);
            let whole = parse_entries(&policy, events, j, anchors, path, acc);
            match policy.spec_decide(below.render(), acc[p].1, value.value) {
                DuplicateKey::Error => whole == Err::<Built, ErrorView>(
                    ErrorView {
                        kind: ErrorKindView::DuplicateKey(below.render()),
                        span: key.value.span(),
                    },
                ),
                DuplicateKey::First => whole == parse_entries(
                    &policy,
                    events,
                    value.next,
                    value.anchors,
                    path,
                    acc,
                ),
                DuplicateKey::Last => whole == parse_entries(
                    &policy,
                    events,
                    value.next,
                    value.anchors,
                    path,
                    acc.update(p, (acc[p].0, value.value)),
                ),
            }
        }),
{
}

/// Every node takes up at least one event: the position behind a node that
/// was built lies behind its first event and within the events.
pub proof fn law_node_takes_events<P: DuplicateKeyPolicy>(
    policy: P,
    events: Seq<Event>,
    i: int,
    anchors: Seq<(Seq<char>, ValueView)>,
    path: PathView,
)
    ensures
        parse_node(&policy, events, i, anchors, path) matches Ok(b) ==> i < b.next <= events.len(),
    decreases events.len() - i, 0int,
{
    if 0 <= i < events.len() {
        lemma_items_take_events(policy, events, i + 1, anchors, path, Seq::empty());
        lemma_entries_take_events(policy, events, i + 1, anchors, path, Seq::empty());
    }
}

proof fn lemma_items_take_events<P: DuplicateKeyPolicy>(
    policy: P,
    events: Seq<Event>,
    j: int,
    anchors: Seq<(Seq<char>, ValueView)>,
    path: PathView,
    acc: Seq<ValueView>,
)
    ensures
        parse_items(&policy, events, j, anchors, path, acc) matches Ok(b) ==> j < b.next
            <= events.len(),
    decreases events.len() - j, 1int,
{
    if 0 <= j < events.len() && !(events[j].kind is SequenceEnd) {
        let below = path.at(acc.len() as usize);
        law_node_takes_events(policy, events, j, anchors, below);
        match parse_node(&policy, events, j, anchors, below) {
            Ok(b) => {
                if j < b.next <= events.len() {
                    lemma_items_take_events(
                        policy,
                        events,
                        b.next,
                        b.anchors,
                        path,
                        acc.push(b.value),
                    );
                }
            },
            Err(_) => {},
        }
    }
}

proof fn lemma_entries_take_events<P: DuplicateKeyPolicy>(
    policy: P,
    events: Seq<Event>,
    j: int,
    anchors: Seq<(Seq<char>, ValueView)>,
    path: PathView,
    acc: Seq<(ValueView, ValueView)>,
)
    ensures
        parse_entries(&policy, events, j, anchors, path, acc) matches Ok(b) ==> j < b.next
            <= events.len(),
    decreases events.len() - j, 1int,
{
    if 0 <= j < events.len() && !(events[j].kind is MappingEnd) {
        law_node_takes_events(policy, events, j, anchors, path.unknown());
        match parse_node(&policy, events, j, anchors, path.unknown()) {
            Ok(k) => {
                if j < k.next <= events.len() {
                    let below = child_path(path, k.value);
                    law_node_takes_events(policy, events, k.next, k.anchors, below);
                    match parse_node(&policy, events, k.next, k.anchors, below) {
                        Ok(v) => {
                            if k.next < v.next <= events.len() {
                                let p = position_of(acc, k.value);
                                lemma_entries_take_events(
                                    policy,
                                    events,
                                    v.next,
                                    v.anchors,
                                    path,
                                    acc,
                                );
                                if 0 <= p < acc.len() {
                                    lemma_entries_take_events(
                                        policy,
                                        events,
                                        v.next,
                                        v.anchors,
                                        path,
                                        acc.update(p, (acc[p].0, v.value)),
                                    );
                                } else {
                                    lemma_entries_take_events(
                                        policy,
                                        events,
                                        v.next,
                                        v.anchors,
                                        path,
                                        acc.push((k.value, v.value)),
                                    );
                                }
                            }
                        },
                        Err(_) => {},
                    }
                }
            },
            Err(_) => {},
        }
    }
}

} // verus!
