//! What a decode produces: a tree that has the form of the shape it was
//! decoded into.

use crate::number::Number;
use crate::shouldbe::{ShouldBe, WhyNotView};
use crate::span::Span;
use crate::spanned::Spanned;
use crate::value::{Value, ValueView};
use crate::verbatim::{Verbatim, VerbatimLegacy};
use vstd::prelude::*;

verus! {

/// A decoded value.
#[derive(Debug)]
pub enum Decoded {
    /// The unit value.
    Unit,
    /// A boolean.
    Bool(bool),
    /// An integer that was decoded into a signed type.
    Signed(i64),
    /// An integer that was decoded into an unsigned type.
    Unsigned(u64),
    /// A number that was decoded into a float type.
    Float(Number),
    /// A character.
    Char(char),
    /// A text.
    Str(String),
    /// A string of bytes.
    Bytes(Vec<u8>),
    /// An optional value.
    Optional(Option<Box<Decoded>>),
    /// The elements of a sequence or of a tuple, in order.
    Sequence(Vec<Decoded>),
    /// The entries of a map, in the order of the document.
    Mapping(Vec<(Decoded, Decoded)>),
    /// The fields of a struct, in the order of declaration.
    Struct(Vec<Decoded>),
    /// A variant of an enum: its name and what it carries.
    Variant(String, Box<Decoded>),
    /// A node of the document.
    Value(Value),
    /// A node that was captured as it stood.
    Verbatim(Verbatim),
    /// A value that was decoded with the field transformer switched off.
    VerbatimLegacy(VerbatimLegacy<Box<Decoded>>),
    /// A value that may have failed to decode.
    ShouldBe(ShouldBe<Box<Decoded>>),
    /// A value with the span of the node it came from.
    Spanned(Spanned<Box<Decoded>>),
}

/// The model of a [`Decoded`].
pub ghost enum DecodedView {
    Unit,
    Bool(bool),
    Signed(i64),
    Unsigned(u64),
    Float(Number),
    Char(char),
    Str(Seq<char>),
    Bytes(Seq<u8>),
    Optional(Option<Box<DecodedView>>),
    Sequence(Seq<DecodedView>),
    Mapping(Seq<(DecodedView, DecodedView)>),
    Struct(Seq<DecodedView>),
    Variant(Seq<char>, Box<DecodedView>),
    Value(ValueView),
    Verbatim(Option<ValueView>),
    VerbatimLegacy(Box<DecodedView>),
    AndIs(Box<DecodedView>),
    ButIsnt(Option<ValueView>, WhyNotView),
    Spanned(Span, Box<DecodedView>),
}

/// The models of a sequence of decoded values.
pub open spec fn decoded_views(items: Seq<Decoded>) -> Seq<DecodedView>
    decreases items,
{
    if items.len() == 0 {
        Seq::empty()
    } else {
        decoded_views(items.drop_last()).push(items.last().model())
    }
}

/// The models of a sequence of decoded pairs.
pub open spec fn decoded_pair_views(entries: Seq<(Decoded, Decoded)>) -> Seq<
    (DecodedView, DecodedView),
>
    decreases entries,
{
    if entries.len() == 0 {
        Seq::empty()
    } else {
        decoded_pair_views(entries.drop_last()).push(
            (entries.last().0.model(), entries.last().1.model()),
        )
    }
}

impl Decoded {
    /// The model of the decoded value.
    pub open spec fn model(&self) -> DecodedView
        decreases self,
    {
        match self {
            Decoded::Unit => DecodedView::Unit,
            Decoded::Bool(b) => DecodedView::Bool(*b),
            Decoded::Signed(n) => DecodedView::Signed(*n),
            Decoded::Unsigned(n) => DecodedView::Unsigned(*n),
            Decoded::Float(n) => DecodedView::Float(*n),
            Decoded::Char(c) => DecodedView::Char(*c),
            Decoded::Str(s) => DecodedView::Str(s@),
            Decoded::Bytes(b) => DecodedView::Bytes(b@),
            Decoded::Optional(None) => DecodedView::Optional(None),
            Decoded::Optional(Some(inner)) => DecodedView::Optional(Some(Box::new(inner.model()))),
            Decoded::Sequence(items) => DecodedView::Sequence(decoded_views(items@)),
            Decoded::Mapping(entries) => DecodedView::Mapping(decoded_pair_views(entries@)),
            Decoded::Struct(fields) => DecodedView::Struct(decoded_views(fields@)),
            Decoded::Variant(name, payload) => DecodedView::Variant(
                name@,
                Box::new(payload.model()),
            ),
            Decoded::Value(v) => DecodedView::Value(v@),
            Decoded::Verbatim(v) => DecodedView::Verbatim(v@),
            Decoded::VerbatimLegacy(w) => DecodedView::VerbatimLegacy(Box::new(w.0.model())),
            Decoded::ShouldBe(ShouldBe::AndIs(inner)) => DecodedView::AndIs(
                Box::new(inner.model()),
            ),
            Decoded::ShouldBe(ShouldBe::ButIsnt { raw, why_not }) => DecodedView::ButIsnt(
                crate::shouldbe::raw_view(*raw),
                why_not@,
            ),
            Decoded::Spanned(s) => DecodedView::Spanned(s.span, Box::new(s.node.model())),
        }
    }
}

impl View for Decoded {
    type V = DecodedView;

    open spec fn view(&self) -> DecodedView {
        self.model()
    }
}

/// The model of a sequence of decoded values holds the model of each value,
/// in order.
pub broadcast proof fn lemma_decoded_views(items: Seq<Decoded>)
    ensures
        #![trigger decoded_views(items)]
        decoded_views(items).len() == items.len(),
        forall|i: int| 0 <= i < items.len() ==> (#[trigger] decoded_views(items)[i]) == items[i]@,
    decreases items.len(),
{
    if items.len() > 0 {
        lemma_decoded_views(items.drop_last());
    }
}

/// The model of a sequence of decoded pairs holds the models of each pair,
/// in order.
pub broadcast proof fn lemma_decoded_pair_views(entries: Seq<(Decoded, Decoded)>)
    ensures
        #![trigger decoded_pair_views(entries)]
        decoded_pair_views(entries).len() == entries.len(),
        forall|i: int|
            0 <= i < entries.len() ==> (#[trigger] decoded_pair_views(entries)[i]) == (
                entries[i].0@,
                entries[i].1@,
            ),
    decreases entries.len(),
{
    if entries.len() > 0 {
        lemma_decoded_pair_views(entries.drop_last());
    }
}

/// Adding a value at the end of a sequence adds its model at the end of the
/// models.
pub proof fn lemma_decoded_views_push(items: Seq<Decoded>, d: Decoded)
    ensures
        decoded_views(items.push(d)) == decoded_views(items).push(d@),
{
    assert(items.push(d).drop_last() =~= items);
}

/// Adding a pair at the end of a sequence adds its models at the end of the
/// models.
pub proof fn lemma_decoded_pair_views_push(entries: Seq<(Decoded, Decoded)>, k: Decoded, v: Decoded)
    ensures
        decoded_pair_views(entries.push((k, v))) == decoded_pair_views(entries).push((k@, v@)),
{
    assert(entries.push((k, v)).drop_last() =~= entries);
}

impl Decoded {
    /// The fields of a decoded struct.
    pub fn as_struct(&self) -> (r: Option<&Vec<Decoded>>)
        ensures
            match r {
                Some(fields) => self@ == DecodedView::Struct(decoded_views(fields@)),
                None => !(self@ is Struct),
            },
    {
        match self {
            Decoded::Struct(fields) => Some(fields),
            _ => None,
        }
    }

    /// The elements of a decoded sequence.
    pub fn as_sequence(&self) -> (r: Option<&Vec<Decoded>>)
        ensures
            match r {
                Some(items) => self@ == DecodedView::Sequence(decoded_views(items@)),
                None => !(self@ is Sequence),
            },
    {
        match self {
            Decoded::Sequence(items) => Some(items),
            _ => None,
        }
    }

    /// The entries of a decoded map.
    pub fn as_mapping(&self) -> (r: Option<&Vec<(Decoded, Decoded)>>)
        ensures
            match r {
                Some(entries) => self@ == DecodedView::Mapping(decoded_pair_views(entries@)),
                None => !(self@ is Mapping),
            },
    {
        match self {
            Decoded::Mapping(entries) => Some(entries),
            _ => None,
        }
    }

    /// The text of a decoded text.
    pub fn as_str(&self) -> (r: Option<&str>)
        ensures
            match r {
                Some(t) => self@ == DecodedView::Str(t@),
                None => !(self@ is Str),
            },
    {
        match self {
            Decoded::Str(s) => Some(s.as_str()),
            _ => None,
        }
    }

    /// The character of a decoded character.
    pub fn as_char(&self) -> (r: Option<char>)
        ensures
            r == (match self@ {
                DecodedView::Char(c) => Some(c),
                _ => None::<char>,
            }),
    {
        match self {
            Decoded::Char(c) => Some(*c),
            _ => None,
        }
    }

    /// The bytes of a decoded string of bytes.
    pub fn as_bytes(&self) -> (r: Option<&Vec<u8>>)
        ensures
            match r {
                Some(b) => self@ == DecodedView::Bytes(b@),
                None => !(self@ is Bytes),
            },
    {
        match self {
            Decoded::Bytes(b) => Some(b),
            _ => None,
        }
    }

    /// The integer of a decoded integer, whichever kind of type it was
    /// decoded into.
    pub fn as_integer(&self) -> (r: Option<i128>)
        ensures
            r == (match self@ {
                DecodedView::Signed(n) => Some(n as i128),
                DecodedView::Unsigned(n) => Some(n as i128),
                _ => None::<i128>,
            }),
    {
        match self {
            Decoded::Signed(n) => Some(*n as i128),
            Decoded::Unsigned(n) => Some(*n as i128),
            _ => None,
        }
    }

    /// The boolean of a decoded boolean.
    pub fn as_bool(&self) -> (r: Option<bool>)
        ensures
            r == (match self@ {
                DecodedView::Bool(b) => Some(b),
                _ => None::<bool>,
            }),
    {
        match self {
            Decoded::Bool(b) => Some(*b),
            _ => None,
        }
    }

    /// The node of a decoded node.
    pub fn as_value(&self) -> (r: Option<&Value>)
        ensures
            match r {
                Some(v) => self@ == DecodedView::Value(v@),
                None => !(self@ is Value),
            },
    {
        match self {
            Decoded::Value(v) => Some(v),
            _ => None,
        }
    }

    /// The content of a decoded optional value: `None` where the value is
    /// not an optional, `Some(None)` where it is an absent one.
    pub fn as_optional(&self) -> (r: Option<Option<&Decoded>>)
        ensures
            match r {
                Some(Some(inner)) => self@ == DecodedView::Optional(Some(Box::new(inner@))),
                Some(None) => self@ == DecodedView::Optional(None),
                None => !(self@ is Optional),
            },
    {
        match self {
            Decoded::Optional(Some(inner)) => Some(Some(&**inner)),
            Decoded::Optional(None) => Some(None),
            _ => None,
        }
    }

    /// The number of a decoded float.
    pub fn as_float(&self) -> (r: Option<Number>)
        ensures
            r == (match self@ {
                DecodedView::Float(n) => Some(n),
                _ => None::<Number>,
            }),
    {
        match self {
            Decoded::Float(n) => Some(*n),
            _ => None,
        }
    }

    /// The name and the payload of a decoded variant.
    pub fn as_variant(&self) -> (r: Option<(&str, &Decoded)>)
        ensures
            match r {
                Some(pair) => self@ == DecodedView::Variant(pair.0@, Box::new(pair.1@)),
                None => !(self@ is Variant),
            },
    {
        match self {
            Decoded::Variant(name, payload) => Some((name.as_str(), &**payload)),
            _ => None,
        }
    }

    /// The wrapper of a node that was captured as it stood.
    pub fn as_verbatim(&self) -> (r: Option<&Verbatim>)
        ensures
            match r {
                Some(v) => self@ == DecodedView::Verbatim(v@),
                None => !(self@ is Verbatim),
            },
    {
        match self {
            Decoded::Verbatim(v) => Some(v),
            _ => None,
        }
    }

    /// The value that was decoded with the field transformer switched off.
    pub fn as_verbatim_legacy(&self) -> (r: Option<&Decoded>)
        ensures
            match r {
                Some(inner) => self@ == DecodedView::VerbatimLegacy(Box::new(inner@)),
                None => !(self@ is VerbatimLegacy),
            },
    {
        match self {
            Decoded::VerbatimLegacy(w) => Some(&*w.0),
            _ => None,
        }
    }

    /// The container of a value that may have failed to decode.
    pub fn as_should_be(&self) -> (r: Option<&ShouldBe<Box<Decoded>>>)
        ensures
            match r {
                Some(sb) => *self == Decoded::ShouldBe(*sb),
                None => !(self@ is AndIs) && !(self@ is ButIsnt),
            },
    {
        match self {
            Decoded::ShouldBe(sb) => Some(sb),
            _ => None,
        }
    }

    /// The value with its span.
    pub fn as_spanned(&self) -> (r: Option<&Spanned<Box<Decoded>>>)
        ensures
            match r {
                Some(sp) => *self == Decoded::Spanned(*sp),
                None => !(self@ is Spanned),
            },
    {
        match self {
            Decoded::Spanned(sp) => Some(sp),
            _ => None,
        }
    }
}

} // verus!
