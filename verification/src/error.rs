//! Errors of parsing and decoding: what went wrong, and where in the source.

use crate::number::Number;
use crate::span::Span;
use crate::text::{decimal, signed_decimal, usize_to_decimal};
use serde::de::Unexpected as Outside;
use crate::value::{Value, ValueView};
use vstd::prelude::*;
use vstd::string::*;

verus! {

/// What a decode step found in place of what it was asked for.
#[derive(Debug)]
pub enum Unexpected {
    Bool(bool),
    Unsigned(u64),
    Signed(i64),
    /// A float, as its bit pattern.
    Float(u64),
    Str(String),
    Unit,
    Sequence,
    Mapping,
    Enum,
    UnitVariant,
}

/// The model of an [`Unexpected`].
pub ghost enum UnexpectedView {
    Bool(bool),
    Unsigned(u64),
    Signed(i64),
    Float(u64),
    Str(Seq<char>),
    Unit,
    Sequence,
    Mapping,
    Enum,
    UnitVariant,
}

impl View for Unexpected {
    type V = UnexpectedView;

    open spec fn view(&self) -> UnexpectedView {
        match self {
            Unexpected::Bool(b) => UnexpectedView::Bool(*b),
            Unexpected::Unsigned(n) => UnexpectedView::Unsigned(*n),
            Unexpected::Signed(n) => UnexpectedView::Signed(*n),
            Unexpected::Float(bits) => UnexpectedView::Float(*bits),
            Unexpected::Str(s) => UnexpectedView::Str(s@),
            Unexpected::Unit => UnexpectedView::Unit,
            Unexpected::Sequence => UnexpectedView::Sequence,
            Unexpected::Mapping => UnexpectedView::Mapping,
            Unexpected::Enum => UnexpectedView::Enum,
            Unexpected::UnitVariant => UnexpectedView::UnitVariant,
        }
    }
}

/// How a node of the document is described when it turns up where another
/// kind was expected.
pub open spec fn spec_unexpected_of(v: ValueView) -> UnexpectedView {
    match v {
        ValueView::Null(_) => UnexpectedView::Unit,
        ValueView::Bool(b, _) => UnexpectedView::Bool(b),
        ValueView::Number(Number::Unsigned(n), _) => UnexpectedView::Unsigned(n),
        ValueView::Number(Number::Signed(n), _) => UnexpectedView::Signed(n),
        ValueView::Number(Number::Float(bits), _) => UnexpectedView::Float(bits),
        ValueView::String(s, _) => UnexpectedView::Str(s),
        ValueView::Sequence(_, _) => UnexpectedView::Sequence,
        ValueView::Mapping(_, _) => UnexpectedView::Mapping,
        ValueView::Tagged(_, _, _) => UnexpectedView::Enum,
    }
}

/// Describes a node that turned up where another kind was expected.
pub fn unexpected_of(v: &Value) -> (u: Unexpected)
    ensures
        u@ == spec_unexpected_of(v@),
{
    match v {
        Value::Null(_) => Unexpected::Unit,
        Value::Bool(b, _) => Unexpected::Bool(*b),
        Value::Number(n, _) => match n {
            Number::Unsigned(u) => Unexpected::Unsigned(*u),
            Number::Signed(i) => Unexpected::Signed(*i),
            Number::Float(bits) => Unexpected::Float(*bits),
        },
        Value::String(s, _) => Unexpected::Str(s.clone()),
        Value::Sequence(_, _) => Unexpected::Sequence,
        Value::Mapping(_, _) => Unexpected::Mapping,
        Value::Tagged(_, _) => Unexpected::Enum,
    }
}

/// A text in the debug quoting of the standard library: between double
/// quotes, with quotes, backslashes and characters that do not print written
/// as escapes.
pub uninterp spec fn quoted_text(s: Seq<char>) -> Seq<char>;

/// Calls the `Display` of serde's `serde::de::Unexpected` for every item but
/// a float. As serde's source has it: a boolean or an integer is written
/// after its kind, between backquotes; a text after the word `string`, in
/// debug quoting; every other item is named by a fixed word or two. That the
/// quoting of a text depends on the text alone is taken on trust.
#[verifier::external_body]
fn unexpected_text(u: &Unexpected) -> (r: String)
    requires
        !(u is Float),
    ensures
        r@ == spec_unexpected_text(u@),
        u matches Unexpected::Str(s) ==> r@ == "string "@ + quoted_text(s@),
{
    let outside = match u {
        Unexpected::Bool(b) => Outside::Bool(*b),
        Unexpected::Unsigned(n) => Outside::Unsigned(*n),
        Unexpected::Signed(n) => Outside::Signed(*n),
        Unexpected::Str(s) => Outside::Str(s),
        Unexpected::Sequence => Outside::Seq,
        Unexpected::Mapping => Outside::Map,
        Unexpected::Enum => Outside::Enum,
        Unexpected::UnitVariant => Outside::UnitVariant,
        _ => Outside::Unit,
    };
    outside.to_string()
}

/// The words that describe an unexpected item in a message.
pub open spec fn spec_unexpected_text(u: UnexpectedView) -> Seq<char> {
    match u {
        UnexpectedView::Bool(b) => "boolean `"@ + (if b {
            "true"@
        } else {
            "false"@
        }) + "`"@,
        UnexpectedView::Unsigned(n) => "integer `"@ + decimal(n as nat) + "`"@,
        UnexpectedView::Signed(n) => "integer `"@ + signed_decimal(n as int) + "`"@,
        UnexpectedView::Float(_) => "floating point number"@,
        UnexpectedView::Str(s) => "string "@ + quoted_text(s),
        UnexpectedView::Unit => "unit value"@,
        UnexpectedView::Sequence => "sequence"@,
        UnexpectedView::Mapping => "map"@,
        UnexpectedView::Enum => "enum"@,
        UnexpectedView::UnitVariant => "unit variant"@,
    }
}

impl Unexpected {
    /// The words that describe the item in a message. A float is described
    /// by its kind alone.
    pub fn describe(&self) -> (r: String)
        ensures
            r@ == spec_unexpected_text(self@),
    {
        match self {
            Unexpected::Float(_) => String::from_str("floating point number"),
            _ => unexpected_text(self),
        }
    }

    /// A copy of the description.
    pub fn duplicate(&self) -> (r: Unexpected)
        ensures
            r@ == self@,
    {
        match self {
            Unexpected::Bool(b) => Unexpected::Bool(*b),
            Unexpected::Unsigned(n) => Unexpected::Unsigned(*n),
            Unexpected::Signed(n) => Unexpected::Signed(*n),
            Unexpected::Float(bits) => Unexpected::Float(*bits),
            Unexpected::Str(s) => Unexpected::Str(s.clone()),
            Unexpected::Unit => Unexpected::Unit,
            Unexpected::Sequence => Unexpected::Sequence,
            Unexpected::Mapping => Unexpected::Mapping,
            Unexpected::Enum => Unexpected::Enum,
            Unexpected::UnitVariant => Unexpected::UnitVariant,
        }
    }
}

/// An error that a caller-supplied transformer or policy raised. The decoder
/// carries it through unchanged.
#[derive(Debug)]
pub struct ExternalError {
    /// What the caller has to say about the failure.
    pub message: String,
}

/// What went wrong.
#[derive(Debug)]
pub enum ErrorKind {
    /// A node of one kind stood where another kind was expected.
    InvalidType { unexpected: Unexpected, expected: String },
    /// A node of the right kind held a value that the target cannot hold.
    InvalidValue { unexpected: Unexpected, expected: String },
    /// A sequence or mapping had the wrong number of elements.
    InvalidLength { len: usize, expected: String },
    /// A field without a default was absent from the mapping.
    MissingField(String),
    /// A field was given twice.
    DuplicateField(String),
    /// A tag or text named no variant of the target.
    UnknownVariant { variant: String, known: Vec<String> },
    /// A key occurred twice in one mapping; the text is the path of the key.
    DuplicateKey(String),
    /// The value under a merge key was a scalar.
    ScalarInMerge,
    /// The value under a merge key, or an element of it, was tagged.
    TaggedInMerge,
    /// An element of the sequence under a merge key was a scalar.
    ScalarInMergeElement,
    /// An element of the sequence under a merge key was a sequence.
    SequenceInMergeElement,
    /// A failure described in words only.
    Custom(String),
    /// A failure that a caller-supplied function reported.
    External(ExternalError),
}

/// The model of an [`ErrorKind`].
pub ghost enum ErrorKindView {
    InvalidType { unexpected: UnexpectedView, expected: Seq<char> },
    InvalidValue { unexpected: UnexpectedView, expected: Seq<char> },
    InvalidLength { len: usize, expected: Seq<char> },
    MissingField(Seq<char>),
    DuplicateField(Seq<char>),
    UnknownVariant { variant: Seq<char>, known: Seq<Seq<char>> },
    DuplicateKey(Seq<char>),
    ScalarInMerge,
    TaggedInMerge,
    ScalarInMergeElement,
    SequenceInMergeElement,
    Custom(Seq<char>),
    External(Seq<char>),
}

/// The texts that a sequence of strings holds.
pub open spec fn texts(names: Seq<String>) -> Seq<Seq<char>> {
    names.map_values(|s: String| s@)
}

impl View for ErrorKind {
    type V = ErrorKindView;

    open spec fn view(&self) -> ErrorKindView {
        match self {
            ErrorKind::InvalidType { unexpected, expected } => ErrorKindView::InvalidType {
                unexpected: unexpected@,
                expected: expected@,
            },
            ErrorKind::InvalidValue { unexpected, expected } => ErrorKindView::InvalidValue {
                unexpected: unexpected@,
                expected: expected@,
            },
            ErrorKind::InvalidLength { len, expected } => ErrorKindView::InvalidLength {
                len: *len,
                expected: expected@,
            },
            ErrorKind::MissingField(name) => ErrorKindView::MissingField(name@),
            ErrorKind::DuplicateField(name) => ErrorKindView::DuplicateField(name@),
            ErrorKind::UnknownVariant { variant, known } => ErrorKindView::UnknownVariant {
                variant: variant@,
                known: texts(known@),
            },
            ErrorKind::DuplicateKey(path) => ErrorKindView::DuplicateKey(path@),
            ErrorKind::ScalarInMerge => ErrorKindView::ScalarInMerge,
            ErrorKind::TaggedInMerge => ErrorKindView::TaggedInMerge,
            ErrorKind::ScalarInMergeElement => ErrorKindView::ScalarInMergeElement,
            ErrorKind::SequenceInMergeElement => ErrorKindView::SequenceInMergeElement,
            ErrorKind::Custom(msg) => ErrorKindView::Custom(msg@),
            ErrorKind::External(e) => ErrorKindView::External(e.message@),
        }
    }
}

/// An error of parsing or decoding, with the span of the innermost node at
/// which it was detected.
#[derive(Debug)]
pub struct Error {
    /// What went wrong.
    pub kind: ErrorKind,
    /// Where it went wrong; the zero span if that is not known.
    pub span: Span,
}

/// The model of an [`Error`].
pub ghost struct ErrorView {
    pub kind: ErrorKindView,
    pub span: Span,
}

impl View for Error {
    type V = ErrorView;

    open spec fn view(&self) -> ErrorView {
        ErrorView { kind: self.kind@, span: self.span }
    }
}

/// The names of the variants as a message lists them, from the name at
/// position `i` on: each in backquotes, separated by commas.
pub open spec fn spec_name_list(names: Seq<Seq<char>>, i: int) -> Seq<char>
    decreases names.len() - i,
{
    if i < 0 || i >= names.len() {
        Seq::empty()
    } else if i == 0 {
        "`"@ + names[i] + "`"@ + spec_name_list(names, i + 1)
    } else {
        ", `"@ + names[i] + "`"@ + spec_name_list(names, i + 1)
    }
}

/// What a message says of the variants that were expected.
pub open spec fn spec_one_of(names: Seq<Seq<char>>) -> Seq<char> {
    if names.len() == 0 {
        "there are no variants"@
    } else if names.len() == 1 {
        "expected `"@ + names[0] + "`"@
    } else if names.len() == 2 {
        "expected `"@ + names[0] + "` or `"@ + names[1] + "`"@
    } else {
        "expected one of "@ + spec_name_list(names, 0)
    }
}

impl ErrorKindView {
    /// The message of the error, without its location.
    pub open spec fn message(self) -> Seq<char> {
        match self {
            ErrorKindView::InvalidType { unexpected, expected } => "invalid type: "@
                + spec_unexpected_text(unexpected) + ", expected "@ + expected,
            ErrorKindView::InvalidValue { unexpected, expected } => "invalid value: "@
                + spec_unexpected_text(unexpected) + ", expected "@ + expected,
            ErrorKindView::InvalidLength { len, expected } => "invalid length "@ + decimal(
                len as nat,
            ) + ", expected "@ + expected,
            ErrorKindView::MissingField(name) => "missing field `"@ + name + "`"@,
            ErrorKindView::DuplicateField(name) => "duplicate field `"@ + name + "`"@,
            ErrorKindView::UnknownVariant { variant, known } => "unknown variant `"@ + variant
                + "`, "@ + spec_one_of(known),
            ErrorKindView::DuplicateKey(path) => "duplicate entry with key `"@ + path + "`"@,
            ErrorKindView::ScalarInMerge =>
                "expected a mapping or list of mappings for merging, but found scalar"@,
            ErrorKindView::TaggedInMerge => "unexpected tagged value in merge"@,
            ErrorKindView::ScalarInMergeElement =>
                "expected a mapping for merging, but found scalar"@,
            ErrorKindView::SequenceInMergeElement =>
                "expected a mapping for merging, but found sequence"@,
            ErrorKindView::Custom(msg) => msg,
            ErrorKindView::External(msg) => msg,
        }
    }
}

impl ErrorView {
    /// The message of the error, followed by the line and column at which
    /// its span starts if the span is valid.
    pub open spec fn text(self) -> Seq<char> {
        if self.span.spec_is_valid() {
            self.kind.message() + " at line "@ + decimal(self.span.start.line as nat)
                + " column "@ + decimal(self.span.start.column as nat)
        } else {
            self.kind.message()
        }
    }
}

fn name_list(names: &Vec<String>, out: &mut String)
    ensures
        final(out)@ == old(out)@ + spec_name_list(texts(names@), 0),
{
    let ghost start = out@;
    let mut i: usize = 0;
    while i < names.len()
        invariant
            i <= names.len(),
            out@ + spec_name_list(texts(names@), i as int) == start + spec_name_list(
                texts(names@),
                0,
            ),
        decreases names.len() - i,
    {
        let ghost before = out@;
        if i == 0 {
            out.append("`");
        } else {
            out.append(", `");
        }
        out.append(names[i].as_str());
        out.append("`");
        proof {
            assert(texts(names@)[i as int] == names[i as int]@);
            assert(out@ + spec_name_list(texts(names@), i + 1) =~= before + spec_name_list(
                texts(names@),
                i as int,
            ));
        }
        i += 1;
    }
    assert(out@ + spec_name_list(texts(names@), i as int) =~= out@);
}

impl ErrorKind {
    /// The message of the error, without its location.
    pub fn message(&self) -> (r: String)
        ensures
            r@ == self@.message(),
    {
        match self {
            ErrorKind::InvalidType { unexpected, expected } => {
                let mut s = String::from_str("invalid type: ");
                s.append(unexpected.describe().as_str());
                s.append(", expected ");
                s.append(expected.as_str());
                s
            },
            ErrorKind::InvalidValue { unexpected, expected } => {
                let mut s = String::from_str("invalid value: ");
                s.append(unexpected.describe().as_str());
                s.append(", expected ");
                s.append(expected.as_str());
                s
            },
            ErrorKind::InvalidLength { len, expected } => {
                let mut s = String::from_str("invalid length ");
                s.append(usize_to_decimal(*len).as_str());
                s.append(", expected ");
                s.append(expected.as_str());
                s
            },
            ErrorKind::MissingField(name) => {
                let mut s = String::from_str("missing field `");
                s.append(name.as_str());
                s.append("`");
                s
            },
            ErrorKind::DuplicateField(name) => {
                let mut s = String::from_str("duplicate field `");
                s.append(name.as_str());
                s.append("`");
                s
            },
            ErrorKind::UnknownVariant { variant, known } => {
                let mut s = String::from_str("unknown variant `");
                s.append(variant.as_str());
                s.append("`, ");
                let ghost names = texts(known@);
                if known.len() == 0 {
                    s.append("there are no variants");
                } else if known.len() == 1 {
                    s.append("expected `");
                    s.append(known[0].as_str());
                    s.append("`");
                    assert(names[0] == known[0]@);
                } else if known.len() == 2 {
                    s.append("expected `");
                    s.append(known[0].as_str());
                    s.append("` or `");
                    s.append(known[1].as_str());
                    s.append("`");
                    assert(names[0] == known[0]@);
                    assert(names[1] == known[1]@);
                } else {
                    s.append("expected one of ");
                    name_list(known, &mut s);
                }
                assert(s@ =~= self@.message());
                s
            },
            ErrorKind::DuplicateKey(path) => {
                let mut s = String::from_str("duplicate entry with key `");
                s.append(path.as_str());
                s.append("`");
                s
            },
            ErrorKind::ScalarInMerge => String::from_str(
                "expected a mapping or list of mappings for merging, but found scalar",
            ),
            ErrorKind::TaggedInMerge => String::from_str("unexpected tagged value in merge"),
            ErrorKind::ScalarInMergeElement => String::from_str(
                "expected a mapping for merging, but found scalar",
            ),
            ErrorKind::SequenceInMergeElement => String::from_str(
                "expected a mapping for merging, but found sequence",
            ),
            ErrorKind::Custom(msg) => msg.clone(),
            ErrorKind::External(e) => e.message.clone(),
        }
    }

    /// A copy of the kind.
    pub fn duplicate(&self) -> (r: ErrorKind)
        ensures
            r@ == self@,
    {
        match self {
            ErrorKind::InvalidType { unexpected, expected } => ErrorKind::InvalidType {
                unexpected: unexpected.duplicate(),
                expected: expected.clone(),
            },
            ErrorKind::InvalidValue { unexpected, expected } => ErrorKind::InvalidValue {
                unexpected: unexpected.duplicate(),
                expected: expected.clone(),
            },
            ErrorKind::InvalidLength { len, expected } => ErrorKind::InvalidLength {
                len: *len,
                expected: expected.clone(),
            },
            ErrorKind::MissingField(name) => ErrorKind::MissingField(name.clone()),
            ErrorKind::DuplicateField(name) => ErrorKind::DuplicateField(name.clone()),
            ErrorKind::UnknownVariant { variant, known } => {
                let mut names: Vec<String> = Vec::new();
                let mut i: usize = 0;
                while i < known.len()
                    invariant
                        i <= known.len(),
                        names.len() == i,
                        forall|k: int| 0 <= k < i ==> names[k]@ == known[k]@,
                    decreases known.len() - i,
                {
                    names.push(known[i].clone());
                    i += 1;
                }
                assert(texts(names@) =~= texts(known@));
                ErrorKind::UnknownVariant { variant: variant.clone(), known: names }
            },
            ErrorKind::DuplicateKey(path) => ErrorKind::DuplicateKey(path.clone()),
            ErrorKind::ScalarInMerge => ErrorKind::ScalarInMerge,
            ErrorKind::TaggedInMerge => ErrorKind::TaggedInMerge,
            ErrorKind::ScalarInMergeElement => ErrorKind::ScalarInMergeElement,
            ErrorKind::SequenceInMergeElement => ErrorKind::SequenceInMergeElement,
            ErrorKind::Custom(msg) => ErrorKind::Custom(msg.clone()),
            ErrorKind::External(e) => ErrorKind::External(
                ExternalError { message: e.message.clone() },
            ),
        }
    }
}

impl Error {
    /// An error of the given kind at the given place.
    pub fn new(kind: ErrorKind, span: Span) -> (e: Error)
        ensures
            e@ == (ErrorView { kind: kind@, span }),
    {
        Error { kind, span }
    }

    /// An error that is described in words only and has no location.
    pub fn custom(message: String) -> (e: Error)
        ensures
            e@ == (ErrorView { kind: ErrorKindView::Custom(message@), span: Span::spec_zero() }),
    {
        Error { kind: ErrorKind::Custom(message), span: Span::zero() }
    }

    /// The error that a caller-supplied function raised at the given place.
    pub fn external(e: ExternalError, span: Span) -> (r: Error)
        ensures
            r@ == (ErrorView { kind: ErrorKindView::External(e.message@), span }),
    {
        Error { kind: ErrorKind::External(e), span }
    }

    /// The span of the node at which the error was detected.
    pub fn span(&self) -> (s: Span)
        ensures
            s == self@.span,
    {
        self.span
    }

    /// True if a caller-supplied function raised the error.
    pub fn is_external(&self) -> (b: bool)
        ensures
            b == (self@.kind is External),
    {
        match self.kind {
            ErrorKind::External(_) => true,
            _ => false,
        }
    }

    /// Hands back the error that a caller-supplied function raised.
    pub fn into_external(self) -> (r: Option<ExternalError>)
        ensures
            match r {
                Some(e) => self@.kind == ErrorKindView::External(e.message@),
                None => !(self@.kind is External),
            },
    {
        match self.kind {
            ErrorKind::External(e) => Some(e),
            _ => None,
        }
    }

    /// The message of the error: what went wrong and, where the span is
    /// valid, the line and column at which it starts.
    pub fn to_string(&self) -> (r: String)
        ensures
            r@ == self@.text(),
    {
        let mut s = self.kind.message();
        if self.span.is_valid() {
            s.append(" at line ");
            s.append(usize_to_decimal(self.span.start.line).as_str());
            s.append(" column ");
            s.append(usize_to_decimal(self.span.start.column).as_str());
        }
        s
    }

    /// A copy of the error.
    pub fn duplicate(&self) -> (r: Error)
        ensures
            r@ == self@,
    {
        Error { kind: self.kind.duplicate(), span: self.span }
    }
}

} // verus!
