//! Building a document from the events of a parser: scalars, the starts and
//! ends of sequences and mappings, and aliases, each with the place in the
//! source where it starts and ends.

use crate::de::semantics::child_path;
use crate::de::maps::path_under;
use crate::error::{Error, ErrorKind, ErrorKindView, ErrorView};
use crate::path::{Path, PathView};
use crate::scalar::spec_resolve;
use crate::span::{Marker, Span};
use crate::spanned::{get_marker, reset_marker, set_marker, Position, PositionView};
use crate::value::{
    lemma_pair_views, lemma_position_of, lemma_views, lemma_views_push, position_of, views, Mapping,
    Value, ValueView,
};
use vstd::prelude::*;
use vstd::string::*;

verus! {

broadcast use {lemma_views, lemma_pair_views};

/// How a scalar was written.
#[derive(Clone, Copy, Debug, PartialEq, Eq, Structural)]
pub enum ScalarStyle {
    /// Without quotes: the text is read as null, a boolean, a number or a
    /// text, whichever it spells.
    Plain,
    /// In quotes or as a block: the text is a text.
    Quoted,
}

/// What an event announces.
#[derive(Debug)]
pub enum EventKind {
    /// A scalar. `float` is what a parser of decimal floats made of the
    /// text, where the text can be a float at all.
    Scalar { text: String, style: ScalarStyle, float: Option<u64> },
    /// The start of a sequence.
    SequenceStart,
    /// The end of a sequence.
    SequenceEnd,
    /// The start of a mapping.
    MappingStart,
    /// The end of a mapping.
    MappingEnd,
    /// A reference to the node that carries the anchor of this name.
    Alias { name: String },
}

/// An event of the parser.
#[derive(Debug)]
pub struct Event {
    /// What the event announces.
    pub kind: EventKind,
    /// The anchor of the node that the event starts, if it has one.
    pub anchor: Option<String>,
    /// The tag of the node that the event starts, if it has one.
    pub tag: Option<String>,
    /// Where the event starts.
    pub start: Marker,
    /// Where the event ends.
    pub end: Marker,
}

/// What is done with a key that occurs a second time in one mapping.
#[derive(Clone, Copy, Debug, PartialEq, Eq, Structural)]
pub enum DuplicateKey {
    /// The parse fails.
    Error,
    /// The first value stays.
    First,
    /// The later value takes the place of the first.
    Last,
}

/// A rule that decides what is done with a key that occurs a second time.
/// What it decides may depend on the path of the key and on the two values
/// alone.
pub trait DuplicateKeyPolicy {
    /// What the rule decides. Unless an implementation says otherwise, a
    /// key that occurs a second time is an error.
    open spec fn spec_decide(&self, path: Seq<char>, existing: ValueView, incoming: ValueView)
        -> DuplicateKey {
        DuplicateKey::Error
    }

    /// Decides what is done with the key at `path`, which holds `existing`
    /// and is given `incoming`.
    fn decide(&self, path: &Path<'_>, existing: &Value, incoming: &Value) -> (r: DuplicateKey)
        ensures
            r == self.spec_decide(path@.render(), existing@, incoming@),
    ;
}

impl DuplicateKeyPolicy for DuplicateKey {
    open spec fn spec_decide(&self, path: Seq<char>, existing: ValueView, incoming: ValueView)
        -> DuplicateKey {
        *self
    }

    fn decide(&self, path: &Path<'_>, existing: &Value, incoming: &Value) -> (r: DuplicateKey) {
        *self
    }
}

/// The position that the parse is at when the event at `i` is the next one:
/// the start of that event, or the end of the last event when there is no
/// next one.
pub open spec fn mark_at(events: Seq<Event>, i: int) -> Marker {
    if 0 <= i < events.len() {
        events[i].start
    } else if events.len() > 0 {
        events[events.len() - 1].end
    } else {
        Marker { index: 0, line: 1, column: 1 }
    }
}

/// The anchors that were seen, each with the node that carries it.
pub open spec fn anchor_views(anchors: Seq<(String, Value)>) -> Seq<(Seq<char>, ValueView)> {
    anchors.map_values(|a: (String, Value)| (a.0@, a.1@))
}

/// The node that carries the anchor `name`: the latest one, if the name was
/// given more than once.
pub open spec fn lookup(anchors: Seq<(Seq<char>, ValueView)>, name: Seq<char>) -> Option<
    ValueView,
>
    decreases anchors.len(),
{
    if anchors.len() == 0 {
        None
    } else if anchors.last().0 == name {
        Some(anchors.last().1)
    } else {
        lookup(anchors.drop_last(), name)
    }
}

/// The anchors after a node was built.
pub open spec fn remember(
    anchors: Seq<(Seq<char>, ValueView)>,
    anchor: Option<String>,
    v: ValueView,
) -> Seq<(Seq<char>, ValueView)> {
    match anchor {
        Some(name) => anchors.push((name@, v)),
        None => anchors,
    }
}

/// The node with its span and, where the event has one, under its tag.
pub open spec fn stamped(tag: Option<String>, v: ValueView, span: Span) -> ValueView {
    match tag {
        Some(t) => ValueView::Tagged(t@, Box::new(v.with_span(span)), span),
        None => v.with_span(span),
    }
}

/// An error that is described in words.
pub open spec fn custom_error(message: Seq<char>, span: Span) -> ErrorView {
    ErrorView { kind: ErrorKindView::Custom(message), span }
}

/// The empty span at a marker.
pub open spec fn point(m: Marker) -> Span {
    Span { start: m, end: m }
}

/// The span of a single event.
pub open spec fn event_span(e: Event) -> Span {
    Span { start: e.start, end: e.end }
}

/// What was built from the events up to `next`.
pub ghost struct Built {
    pub value: ValueView,
    pub next: int,
    pub anchors: Seq<(Seq<char>, ValueView)>,
}

/// Builds the node that starts with the event at `i`.
///
/// The span of the node runs from the start of its first event to the
/// position that the parse is at behind its last event.
pub open spec fn parse_node<P: DuplicateKeyPolicy>(
    policy: &P,
    events: Seq<Event>,
    i: int,
    anchors: Seq<(Seq<char>, ValueView)>,
    path: PathView,
) -> Result<Built, ErrorView>
    decreases events.len() - i, 0int,
{
    if i < 0 || i >= events.len() {
        Err(custom_error("unexpected end of events"@, point(mark_at(events, i))))
    } else {
        let e = events[i];
        match e.kind {
            EventKind::Scalar { text, style, float } => {
                let span = Span { start: e.start, end: mark_at(events, i + 1) };
                let plain = match style {
                    ScalarStyle::Plain => spec_resolve(text@, float),
                    ScalarStyle::Quoted => ValueView::String(text@, Span::spec_zero()),
                };
                let v = stamped(e.tag, plain, span);
                Ok(Built { value: v, next: i + 1, anchors: remember(anchors, e.anchor, v) })
            },
            EventKind::Alias { name } => match lookup(anchors, name@) {
                Some(v) => Ok(Built { value: v, next: i + 1, anchors }),
                None => Err(custom_error("unknown anchor"@, event_span(e))),
            },
            EventKind::SequenceStart => match parse_items(
                policy,
                events,
                i + 1,
                anchors,
                path,
                Seq::empty(),
            ) {
                Err(err) => Err(err),
                Ok(b) => {
                    let span = Span { start: e.start, end: mark_at(events, b.next) };
                    let v = stamped(e.tag, b.value, span);
                    Ok(Built { value: v, next: b.next, anchors: remember(b.anchors, e.anchor, v) })
                },
            },
            EventKind::MappingStart => match parse_entries(
                policy,
                events,
                i + 1,
                anchors,
                path,
                Seq::empty(),
            ) {
                Err(err) => Err(err),
                Ok(b) => {
                    let span = Span { start: e.start, end: mark_at(events, b.next) };
                    let v = stamped(e.tag, b.value, span);
                    Ok(Built { value: v, next: b.next, anchors: remember(b.anchors, e.anchor, v) })
                },
            },
            _ => Err(custom_error("unexpected end of a collection"@, event_span(e))),
        }
    }
}

/// Builds the items of a sequence, from the event at `j` up to the end of
/// the sequence.
///
/// Every node takes up at least one event, so that the position behind an
/// item lies behind its first event; the definition says what happens
/// otherwise only to be well-founded.
pub open spec fn parse_items<P: DuplicateKeyPolicy>(
    policy: &P,
    events: Seq<Event>,
    j: int,
    anchors: Seq<(Seq<char>, ValueView)>,
    path: PathView,
    acc: Seq<ValueView>,
) -> Result<Built, ErrorView>
    decreases events.len() - j, 1int,
{
    if j < 0 || j >= events.len() {
        Err(custom_error("unexpected end of events"@, point(mark_at(events, j))))
    } else if events[j].kind is SequenceEnd {
        Ok(Built { value: ValueView::Sequence(acc, Span::spec_zero()), next: j + 1, anchors })
    } else {
        match parse_node(policy, events, j, anchors, path.at(acc.len() as usize)) {
            Err(err) => Err(err),
            Ok(b) => if b.next <= j || b.next > events.len() {
                Err(custom_error("no progress"@, Span::spec_zero()))
            } else {
                parse_items(policy, events, b.next, b.anchors, path, acc.push(b.value))
            },
        }
    }
}

/// Builds the entries of a mapping, from the event at `j` up to the end of
/// the mapping. A key that the mapping holds already is treated as the
/// policy decides.
pub open spec fn parse_entries<P: DuplicateKeyPolicy>(
    policy: &P,
    events: Seq<Event>,
    j: int,
    anchors: Seq<(Seq<char>, ValueView)>,
    path: PathView,
    acc: Seq<(ValueView, ValueView)>,
) -> Result<Built, ErrorView>
    decreases events.len() - j, 1int,
{
    if j < 0 || j >= events.len() {
        Err(custom_error("unexpected end of events"@, point(mark_at(events, j))))
    } else if events[j].kind is MappingEnd {
        Ok(Built { value: ValueView::Mapping(acc, Span::spec_zero()), next: j + 1, anchors })
    } else {
        match parse_node(policy, events, j, anchors, path.unknown()) {
            Err(err) => Err(err),
            Ok(k) => if k.next <= j || k.next > events.len() {
                Err(custom_error("no progress"@, Span::spec_zero()))
            } else {
                let below = child_path(path, k.value);
                match parse_node(policy, events, k.next, k.anchors, below) {
                    Err(err) => Err(err),
                    Ok(v) => if v.next <= k.next || v.next > events.len() {
                        Err(custom_error("no progress"@, Span::spec_zero()))
                    } else {
                        let p = position_of(acc, k.value);
                        if 0 <= p < acc.len() {
                            match policy.spec_decide(below.render(), acc[p].1, v.value) {
                                DuplicateKey::Error => Err(
                                    ErrorView {
                                        kind: ErrorKindView::DuplicateKey(below.render()),
                                        span: k.value.span(),
                                    },
                                ),
                                DuplicateKey::First => parse_entries(
                                    policy,
                                    events,
                                    v.next,
                                    v.anchors,
                                    path,
                                    acc,
                                ),
                                DuplicateKey::Last => parse_entries(
                                    policy,
                                    events,
                                    v.next,
                                    v.anchors,
                                    path,
                                    acc.update(p, (acc[p].0, v.value)),
                                ),
                            }
                        } else {
                            parse_entries(
                                policy,
                                events,
                                v.next,
                                v.anchors,
                                path,
                                acc.push((k.value, v.value)),
                            )
                        }
                    },
                }
            },
        }
    }
}

/// Builds the document that the events describe: one node, with nothing
/// behind it.
pub open spec fn parse_document<P: DuplicateKeyPolicy>(policy: &P, events: Seq<Event>) -> Result<
    ValueView,
    ErrorView,
> {
    match parse_node(policy, events, 0, Seq::empty(), PathView::Root) {
        Err(e) => Err(e),
        Ok(b) => if b.next == events.len() {
            Ok(b.value)
        } else {
            Err(custom_error("more than one document"@, point(mark_at(events, b.next))))
        },
    }
}

/// The position that the parse is at when the event at `i` is the next one.
fn marker_at(events: &Vec<Event>, i: usize) -> (m: Marker)
    ensures
        m == mark_at(events@, i as int),
{
    if i < events.len() {
        events[i].start
    } else if events.len() > 0 {
        events[events.len() - 1].end
    } else {
        Marker::start()
    }
}

fn find_anchor(anchors: &Vec<(String, Value)>, name: &String) -> (r: Option<Value>)
    ensures
        match r {
            Some(v) => lookup(anchor_views(anchors@), name@) == Some(v@),
            None => lookup(anchor_views(anchors@), name@) is None,
        },
{
    let ghost all = anchor_views(anchors@);
    let mut k: usize = anchors.len();
    assert(all.take(k as int) =~= all);
    while k > 0
        invariant
            k <= anchors.len(),
            all == anchor_views(anchors@),
            lookup(all, name@) == lookup(all.take(k as int), name@),
        decreases k,
    {
        proof {
            assert(all.take(k as int).drop_last() =~= all.take(k - 1));
            assert(all.take(k as int).last() == all[k - 1]);
        }
        if anchors[k - 1].0 == *name {
            return Some(anchors[k - 1].1.duplicate());
        }
        k -= 1;
    }
    proof {
        assert(all.take(0) =~= Seq::<(Seq<char>, ValueView)>::empty());
    }
    None
}

fn note_anchor(anchors: &mut Vec<(String, Value)>, anchor: &Option<String>, v: &Value)
    ensures
        anchor_views(final(anchors)@) == remember(anchor_views(old(anchors)@), *anchor, v@),
{
    match anchor {
        Some(name) => {
            anchors.push((name.clone(), v.duplicate()));
            assert(anchor_views(anchors@) =~= remember(anchor_views(old(anchors)@), *anchor, v@));
        },
        None => {},
    }
}

fn stamp(tag: &Option<String>, v: Value, span: Span) -> (r: Value)
    ensures
        r@ == stamped(*tag, v@, span),
{
    match tag {
        Some(t) => Value::Tagged(
            Box::new(crate::value::TaggedValue { tag: t.clone(), value: v.with_span(span) }),
            span,
        ),
        None => v.with_span(span),
    }
}

fn custom(message: &str, span: Span) -> (e: Error)
    ensures
        e@ == custom_error(message@, span),
{
    Error::new(ErrorKind::Custom(String::from_str(message)), span)
}

/// The position says that the event at `i` is the next one.
pub open spec fn stands_at(position: &Position, events: Seq<Event>, i: int) -> bool {
    position@.marker == Some(mark_at(events, i))
}

/// Steps over the event at `i`: the position is then that of the event
/// behind it.
fn advance(events: &Vec<Event>, i: usize, position: &mut Position)
    requires
        i < events.len(),
    ensures
        stands_at(final(position), events@, i + 1),
        final(position)@.filename == old(position)@.filename,
{
    set_marker(position, marker_at(events, i + 1));
}

/// The model of what a build step returns.
pub open spec fn built_view(
    r: Result<(Value, usize), Error>,
    anchors: Seq<(String, Value)>,
) -> Result<Built, ErrorView> {
    match r {
        Ok(pair) => Ok(
            Built { value: pair.0@, next: pair.1 as int, anchors: anchor_views(anchors) },
        ),
        Err(e) => Err(e@),
    }
}

/// Builds the node that starts with the event at `i`, and returns it with
/// the position of the event behind it.
fn build_node<P: DuplicateKeyPolicy>(
    policy: &P,
    events: &Vec<Event>,
    i: usize,
    anchors: &mut Vec<(String, Value)>,
    path: &Path<'_>,
    position: &mut Position,
) -> (r: Result<(Value, usize), Error>)
    requires
        stands_at(old(position), events@, i as int),
    ensures
        final(position)@.filename == old(position)@.filename,
        r is Ok ==> built_view(r, final(anchors)@) == parse_node(
            policy,
            events@,
            i as int,
            anchor_views(old(anchors)@),
            path@,
        ),
        r matches Err(e) ==> parse_node(
            policy,
            events@,
            i as int,
            anchor_views(old(anchors)@),
            path@,
        ) == Err::<Built, ErrorView>(e@),
        r matches Ok(pair) ==> i < pair.1 <= events.len() && stands_at(
            final(position),
            events@,
            pair.1 as int,
        ),
    decreases events.len() - i, 0int,
{
    if i >= events.len() {
        let here = marker_at(events, i);
        return Err(custom("unexpected end of events", Span::new(here, here)));
    }
    let e = &events[i];
    let start = get_marker(position);
    match &e.kind {
        EventKind::Scalar { text, style, float } => {
            advance(events, i, position);
            let span = Span::between(start, get_marker(position));
            let plain = match style {
                ScalarStyle::Plain => Value::from_scalar(text.as_str(), *float),
                ScalarStyle::Quoted => Value::string(text.clone()),
            };
            let v = stamp(&e.tag, plain, span);
            note_anchor(anchors, &e.anchor, &v);
            Ok((v, i + 1))
        },
        EventKind::Alias { name } => match find_anchor(anchors, name) {
            Some(v) => {
                advance(events, i, position);
                Ok((v, i + 1))
            },
            None => Err(custom("unknown anchor", Span::new(e.start, e.end))),
        },
        EventKind::SequenceStart => {
            advance(events, i, position);
            match build_items(policy, events, i + 1, anchors, path, position) {
                Err(err) => Err(err),
                Ok((items, next)) => {
                    let span = Span::between(start, get_marker(position));
                    let v = stamp(&e.tag, Value::sequence(items), span);
                    note_anchor(anchors, &e.anchor, &v);
                    Ok((v, next))
                },
            }
        },
        EventKind::MappingStart => {
            advance(events, i, position);
            match build_entries(policy, events, i + 1, anchors, path, position) {
                Err(err) => Err(err),
                Ok((entries, next)) => {
                    let span = Span::between(start, get_marker(position));
                    let v = stamp(&e.tag, Value::mapping(entries), span);
                    note_anchor(anchors, &e.anchor, &v);
                    Ok((v, next))
                },
            }
        },
        _ => Err(custom("unexpected end of a collection", Span::new(e.start, e.end))),
    }
}

/// Builds the items of a sequence, from the event at `j` up to the end of
/// the sequence.
fn build_items<P: DuplicateKeyPolicy>(
    policy: &P,
    events: &Vec<Event>,
    j: usize,
    anchors: &mut Vec<(String, Value)>,
    path: &Path<'_>,
    position: &mut Position,
) -> (r: Result<(Vec<Value>, usize), Error>)
    requires
        j <= events.len(),
        stands_at(old(position), events@, j as int),
    ensures
        final(position)@.filename == old(position)@.filename,
        match r {
            Ok(pair) => {
                &&& parse_items(
                    policy,
                    events@,
                    j as int,
                    anchor_views(old(anchors)@),
                    path@,
                    Seq::empty(),
                ) == Ok::<Built, ErrorView>(
                    Built {
                        value: ValueView::Sequence(views(pair.0@), Span::spec_zero()),
                        next: pair.1 as int,
                        anchors: anchor_views(final(anchors)@),
                    },
                )
                &&& j < pair.1 <= events.len()
                &&& stands_at(final(position), events@, pair.1 as int)
            },
            Err(e) => parse_items(
                policy,
                events@,
                j as int,
                anchor_views(old(anchors)@),
                path@,
                Seq::empty(),
            ) == Err::<Built, ErrorView>(e@),
        },
    decreases events.len() - j, 1int,
{
    let ghost whole = parse_items(
        policy,
        events@,
        j as int,
        anchor_views(anchors@),
        path@,
        Seq::empty(),
    );
    let mut out: Vec<Value> = Vec::new();
    let mut at: usize = j;
    while at < events.len()
        invariant
            j <= at <= events.len(),
            stands_at(position, events@, at as int),
            position@.filename == old(position)@.filename,
            whole == parse_items(
                policy,
                events@,
                j as int,
                anchor_views(old(anchors)@),
                path@,
                Seq::empty(),
            ),
            whole == parse_items(
                policy,
                events@,
                at as int,
                anchor_views(anchors@),
                path@,
                views(out@),
            ),
        decreases events.len() - at,
    {
        match &events[at].kind {
            EventKind::SequenceEnd => {
                advance(events, at, position);
                return Ok((out, at + 1));
            },
            _ => {},
        }
        let child = Path::Sequence { parent: path, index: out.len() };
        match build_node(policy, events, at, anchors, &child, position) {
            Err(e) => {
                return Err(e);
            },
            Ok((v, next)) => {
                proof {
                    lemma_views_push(out@, v);
                }
                out.push(v);
                at = next;
            },
        }
    }
    let here = marker_at(events, at);
    Err(custom("unexpected end of events", Span::new(here, here)))
}

/// Builds the entries of a mapping, from the event at `j` up to the end of
/// the mapping.
fn build_entries<P: DuplicateKeyPolicy>(
    policy: &P,
    events: &Vec<Event>,
    j: usize,
    anchors: &mut Vec<(String, Value)>,
    path: &Path<'_>,
    position: &mut Position,
) -> (r: Result<(Mapping, usize), Error>)
    requires
        j <= events.len(),
        stands_at(old(position), events@, j as int),
    ensures
        final(position)@.filename == old(position)@.filename,
        match r {
            Ok(pair) => {
                &&& parse_entries(
                    policy,
                    events@,
                    j as int,
                    anchor_views(old(anchors)@),
                    path@,
                    Seq::empty(),
                ) == Ok::<Built, ErrorView>(
                    Built {
                        value: ValueView::Mapping(pair.0@, Span::spec_zero()),
                        next: pair.1 as int,
                        anchors: anchor_views(final(anchors)@),
                    },
                )
                &&& j < pair.1 <= events.len()
                &&& stands_at(final(position), events@, pair.1 as int)
            },
            Err(e) => parse_entries(
                policy,
                events@,
                j as int,
                anchor_views(old(anchors)@),
                path@,
                Seq::empty(),
            ) == Err::<Built, ErrorView>(e@),
        },
    decreases events.len() - j, 1int,
{
    let ghost whole = parse_entries(
        policy,
        events@,
        j as int,
        anchor_views(anchors@),
        path@,
        Seq::empty(),
    );
    let mut out = Mapping::new();
    let mut at: usize = j;
    while at < events.len()
        invariant
            j <= at <= events.len(),
            stands_at(position, events@, at as int),
            position@.filename == old(position)@.filename,
            whole == parse_entries(
                policy,
                events@,
                j as int,
                anchor_views(old(anchors)@),
                path@,
                Seq::empty(),
            ),
            whole == parse_entries(
                policy,
                events@,
                at as int,
                anchor_views(anchors@),
                path@,
                out@,
            ),
        decreases events.len() - at,
    {
        match &events[at].kind {
            EventKind::MappingEnd => {
                advance(events, at, position);
                return Ok((out, at + 1));
            },
            _ => {},
        }
        let nowhere = Path::Unknown { parent: path };
        let (key, after_key) = match build_node(policy, events, at, anchors, &nowhere, position) {
            Err(e) => {
                return Err(e);
            },
            Ok(pair) => pair,
        };
        let below = path_under(path, &key);
        let (value, next) = match build_node(policy, events, after_key, anchors, &below, position) {
            Err(e) => {
                return Err(e);
            },
            Ok(pair) => pair,
        };
        proof {
            lemma_position_of(out@, key@);
        }
        match out.index_of(&key) {
            Some(p) => {
                match policy.decide(&below, out.value_at(p), &value) {
                    DuplicateKey::Error => {
                        return Err(
                            Error::new(ErrorKind::DuplicateKey(below.to_string()), key.span()),
                        );
                    },
                    DuplicateKey::First => {},
                    DuplicateKey::Last => {
                        out.insert(key, value);
                    },
                }
            },
            None => {
                out.insert(key, value);
            },
        }
        at = next;
    }
    let here = marker_at(events, at);
    Err(custom("unexpected end of events", Span::new(here, here)))
}

/// The model of the result of a parse.
pub open spec fn document_view(r: Result<Value, Error>) -> Result<ValueView, ErrorView> {
    match r {
        Ok(v) => Ok(v@),
        Err(e) => Err(e@),
    }
}

impl Value {
    /// Builds the document that the events describe.
    ///
    /// Each node is stamped with the span between the position that the
    /// parse stood at before the node and the position behind it. A key
    /// that occurs twice in one mapping is treated as `policy` decides. The
    /// position is reset when the parse ends.
    pub fn from_events<P: DuplicateKeyPolicy>(
        events: &Vec<Event>,
        policy: &P,
        position: &mut Position,
    ) -> (r: Result<Value, Error>)
        ensures
            document_view(r) == parse_document(policy, events@),
            final(position)@ == (PositionView { marker: None, ..old(position)@ }),
    {
        set_marker(position, marker_at(events, 0));
        let mut anchors: Vec<(String, Value)> = Vec::new();
        proof {
            assert(anchor_views(anchors@) =~= Seq::<(Seq<char>, ValueView)>::empty());
        }
        let root = Path::Root;
        let built = build_node(policy, events, 0, &mut anchors, &root, position);
        reset_marker(position);
        match built {
            Err(e) => Err(e),
            Ok((v, next)) => {
                if next == events.len() {
                    Ok(v)
                } else {
                    let here = marker_at(events, next);
                    Err(custom("more than one document", Span::new(here, here)))
                }
            },
        }
    }
}

} // verus!
