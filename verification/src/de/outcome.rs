//! What the steps of a decode return, and the errors that they raise.

use crate::de::{unused_views, UnusedKey, UnusedKeyView};
use crate::de::semantics::{int_from, length_error, type_error, Outcome};
use crate::decoded::{lemma_decoded_pair_views, lemma_decoded_views, Decoded, DecodedView};
use crate::error::{unexpected_of, Error, ErrorKind, ErrorView, Unexpected};
use crate::number::Number;
use crate::shape::IntKind;
use crate::span::Span;
use crate::value::{lemma_pair_views, lemma_views, Value};
use vstd::prelude::*;
use vstd::string::*;

verus! {

broadcast use {lemma_views, lemma_pair_views, lemma_decoded_views, lemma_decoded_pair_views};

/// The model of the result of a decode.
pub open spec fn result_view(r: Result<Decoded, Error>) -> Result<DecodedView, ErrorView> {
    match r {
        Ok(d) => Ok(d@),
        Err(e) => Err(e@),
    }
}

/// The result `r` and the reports that were added to the sink are what the
/// outcome `o` says.
pub open spec fn agrees(
    r: Result<Decoded, Error>,
    before: Seq<UnusedKey>,
    after: Seq<UnusedKey>,
    o: Outcome,
) -> bool {
    &&& result_view(r) == o.result
    &&& unused_views(after) == unused_views(before) + o.unused
}

/// The result `r` is what the outcome `o` says, and `o` reports no key.
pub open spec fn agrees_quietly(r: Result<Decoded, Error>, o: Outcome) -> bool {
    &&& result_view(r) == o.result
    &&& o.unused == Seq::<UnusedKeyView>::empty()
}

/// The error for a node of the wrong kind.
pub fn invalid_type(v: &Value, expected: String) -> (e: Error)
    ensures
        e@ == type_error(v@, expected@),
{
    Error::new(ErrorKind::InvalidType { unexpected: unexpected_of(v), expected }, v.span())
}

/// Converts a number into an integer of the given type.
pub fn integer_from(n: &Number, kind: IntKind, span: Span) -> (r: Result<Decoded, Error>)
    ensures
        result_view(r) == int_from(*n, kind, span),
{
    match *n {
        Number::Unsigned(u) => {
            if u <= kind.max() {
                if kind.is_signed() {
                    Ok(Decoded::Signed(u as i64))
                } else {
                    Ok(Decoded::Unsigned(u))
                }
            } else {
                Err(
                    Error::new(
                        ErrorKind::InvalidValue {
                            unexpected: Unexpected::Unsigned(u),
                            expected: kind.name(),
                        },
                        span,
                    ),
                )
            }
        },
        Number::Signed(i) => {
            if kind.min() <= i && (i < 0 || i as u64 <= kind.max()) {
                if kind.is_signed() {
                    Ok(Decoded::Signed(i))
                } else {
                    Ok(Decoded::Unsigned(i as u64))
                }
            } else {
                Err(
                    Error::new(
                        ErrorKind::InvalidValue {
                            unexpected: Unexpected::Signed(i),
                            expected: kind.name(),
                        },
                        span,
                    ),
                )
            }
        },
        Number::Float(bits) => Err(
            Error::new(
                ErrorKind::InvalidType {
                    unexpected: Unexpected::Float(bits),
                    expected: kind.name(),
                },
                span,
            ),
        ),
    }
}


/// Adding a report at the end of a sequence adds its model at the end of the
/// models.
pub proof fn lemma_unused_push(reports: Seq<UnusedKey>, r: UnusedKey)
    ensures
        unused_views(reports.push(r)) == unused_views(reports).push(r@),
{
    assert(unused_views(reports.push(r)) =~= unused_views(reports).push(r@));
}

/// The error for a sequence or mapping of the wrong length.
pub fn invalid_length(len: usize, expected: &str, span: Span) -> (e: Error)
    ensures
        e@ == length_error(len, expected@, span),
{
    Error::new(ErrorKind::InvalidLength { len, expected: String::from_str(expected) }, span)
}

} // verus!
