//! How the text of a plain scalar is read: as null, a boolean, an integer, a
//! float or, failing all of those, a text.

use crate::number::Number;
use crate::span::Span;
use crate::text::same_text;
use crate::value::{Value, ValueView};
use vstd::prelude::*;
use vstd::string::*;

verus! {

/// The value of a character as a digit in the given radix.
pub open spec fn digit_of(c: char, radix: int) -> Option<int> {
    let v: int = if '0' <= c <= '9' {
        c as int - '0' as int
    } else if 'a' <= c <= 'f' {
        c as int - 'a' as int + 10
    } else if 'A' <= c <= 'F' {
        c as int - 'A' as int + 10
    } else {
        16
    };
    if v < radix {
        Some(v)
    } else {
        None
    }
}

/// The number that a sequence of digits denotes in the given radix, if every
/// character is a digit.
pub open spec fn digits_value(s: Seq<char>, radix: int) -> Option<int>
    decreases s.len(),
{
    if s.len() == 0 {
        Some(0)
    } else {
        match (digits_value(s.drop_last(), radix), digit_of(s.last(), radix)) {
            (Some(a), Some(d)) => Some(a * radix + d),
            _ => None,
        }
    }
}

/// The number that a non-empty sequence of digits denotes.
pub open spec fn numeral(s: Seq<char>, radix: int) -> Option<int> {
    if s.len() == 0 {
        None
    } else {
        digits_value(s, radix)
    }
}

/// True if the text starts with a sign.
pub open spec fn starts_with_sign(s: Seq<char>) -> bool {
    s.len() > 0 && (s[0] == '+' || s[0] == '-')
}

/// The text without its leading plus sign, if it has one.
pub open spec fn strip_plus(s: Seq<char>) -> Seq<char> {
    if s.len() > 0 && s[0] == '+' {
        s.skip(1)
    } else {
        s
    }
}

/// The text without its leading sign, if it has one.
pub open spec fn strip_sign(s: Seq<char>) -> Seq<char> {
    if starts_with_sign(s) {
        s.skip(1)
    } else {
        s
    }
}

/// True if the text starts with the two given characters.
pub open spec fn has_prefix2(s: Seq<char>, a: char, b: char) -> bool {
    s.len() >= 2 && s[0] == a && s[1] == b
}

/// True if the text starts with the three given characters.
pub open spec fn has_prefix3(s: Seq<char>, a: char, b: char, c: char) -> bool {
    s.len() >= 3 && s[0] == a && s[1] == b && s[2] == c
}

/// True if the text, after an optional sign, is a zero followed by one or
/// more decimal digits. Such a text is no number: a numeral does not start
/// with a superfluous zero.
pub open spec fn digits_but_not_number(s: Seq<char>) -> bool {
    let t = strip_sign(s);
    &&& t.len() > 1
    &&& t[0] == '0'
    &&& forall|i: int| 1 <= i < t.len() ==> '0' <= #[trigger] t[i] <= '9'
}

/// The text is one of the spellings of null.
pub open spec fn spec_is_null(s: Seq<char>) -> bool {
    s.len() == 0 || s == "~"@ || s == "null"@ || s == "Null"@ || s == "NULL"@
}

/// The boolean that the text spells, if it spells one.
pub open spec fn spec_bool(s: Seq<char>) -> Option<bool> {
    if s == "true"@ || s == "True"@ || s == "TRUE"@ {
        Some(true)
    } else if s == "false"@ || s == "False"@ || s == "FALSE"@ {
        Some(false)
    } else {
        None
    }
}

/// The non-negative integer that the text spells, if it spells one that fits
/// in sixty-four bits: an optional plus sign and then a decimal numeral, or
/// a numeral in radix sixteen, eight or two behind `0x`, `0o` or `0b`.
pub open spec fn spec_unsigned(s: Seq<char>) -> Option<u64> {
    let u = strip_plus(s);
    let found: Option<int> = if has_prefix2(u, '0', 'x') {
        numeral(u.skip(2), 16)
    } else if has_prefix2(u, '0', 'o') {
        numeral(u.skip(2), 8)
    } else if has_prefix2(u, '0', 'b') {
        numeral(u.skip(2), 2)
    } else if starts_with_sign(u) || digits_but_not_number(s) {
        None
    } else {
        numeral(u, 10)
    };
    match found {
        Some(v) => if v <= u64::MAX {
            Some(v as u64)
        } else {
            None
        },
        None => None,
    }
}

/// The integer that a text with a minus sign spells, if it spells one that
/// fits in sixty-four bits.
pub open spec fn spec_negative(s: Seq<char>) -> Option<i64> {
    let found: Option<int> = if has_prefix3(s, '-', '0', 'x') {
        numeral(s.skip(3), 16)
    } else if has_prefix3(s, '-', '0', 'o') {
        numeral(s.skip(3), 8)
    } else if has_prefix3(s, '-', '0', 'b') {
        numeral(s.skip(3), 2)
    } else if s.len() > 0 && s[0] == '-' && !digits_but_not_number(s) {
        numeral(s.skip(1), 10)
    } else {
        None
    };
    match found {
        Some(v) => if v <= 0x8000_0000_0000_0000 {
            Some((-v) as i64)
        } else {
            None
        },
        None => None,
    }
}

/// The bit pattern of positive infinity.
pub const POSITIVE_INFINITY: u64 = 0x7ff0_0000_0000_0000;

/// The bit pattern of negative infinity.
pub const NEGATIVE_INFINITY: u64 = 0xfff0_0000_0000_0000;

/// The bit pattern of the NaN that a document spells.
pub const CANONICAL_NAN: u64 = 0x7ff8_0000_0000_0000;

/// The text that is handed to a parser of decimal floats for a scalar that
/// is neither null, a boolean nor an integer: the scalar without its leading
/// plus sign. There is none where a second sign follows the plus sign, or
/// where the scalar is a zero followed by digits.
pub open spec fn spec_float_candidate(s: Seq<char>) -> Option<Seq<char>> {
    if digits_but_not_number(s) {
        None
    } else if s.len() > 0 && s[0] == '+' && starts_with_sign(s.skip(1)) {
        None
    } else {
        Some(strip_plus(s))
    }
}

/// The float that the text spells, if it spells one: one of the spellings of
/// the infinities and of NaN, or the finite float that a parser of decimal
/// floats found in the candidate text.
pub open spec fn spec_float(s: Seq<char>, parsed: Option<u64>) -> Option<u64> {
    match spec_float_candidate(s) {
        None => None,
        Some(u) => if u == ".inf"@ || u == ".Inf"@ || u == ".INF"@ {
            Some(POSITIVE_INFINITY)
        } else if s == "-.inf"@ || s == "-.Inf"@ || s == "-.INF"@ {
            Some(NEGATIVE_INFINITY)
        } else if s == ".nan"@ || s == ".NaN"@ || s == ".NAN"@ {
            Some(CANONICAL_NAN)
        } else {
            match parsed {
                Some(bits) => if crate::number::float_exponent(bits) != 0x7ff {
                    Some(bits)
                } else {
                    None
                },
                None => None,
            }
        },
    }
}

/// The node that the text of a plain scalar is read as. `parsed` is what a
/// parser of decimal floats made of the candidate text.
pub open spec fn spec_resolve(s: Seq<char>, parsed: Option<u64>) -> ValueView {
    let span = Span::spec_zero();
    if spec_is_null(s) {
        ValueView::Null(span)
    } else if spec_bool(s) is Some {
        ValueView::Bool(spec_bool(s)->0, span)
    } else if spec_unsigned(s) is Some {
        ValueView::Number(Number::Unsigned(spec_unsigned(s)->0), span)
    } else if spec_negative(s) is Some {
        ValueView::Number(
            if spec_negative(s)->0 >= 0 {
                Number::Unsigned(spec_negative(s)->0 as u64)
            } else {
                Number::Signed(spec_negative(s)->0)
            },
            span,
        )
    } else if spec_float(s, parsed) is Some {
        ValueView::Number(Number::Float(spec_float(s, parsed)->0), span)
    } else {
        ValueView::String(s, span)
    }
}

/// A numeral that has a numeral as a prefix denotes no less than the prefix,
/// and if a prefix is no numeral, neither is the whole.
proof fn lemma_digits_prefix(s: Seq<char>, radix: int, k: int)
    requires
        2 <= radix <= 16,
        0 <= k <= s.len(),
    ensures
        digits_value(s.take(k), radix) is None ==> digits_value(s, radix) is None,
        digits_value(s, radix) is Some ==> 0 <= digits_value(s.take(k), radix)->0
            <= digits_value(s, radix)->0,
    decreases s.len(),
{
    if k == s.len() {
        assert(s.take(k) =~= s);
        lemma_digits_nonnegative(s, radix);
    } else {
        assert(s.drop_last().take(k) =~= s.take(k));
        lemma_digits_prefix(s.drop_last(), radix, k);
        lemma_digits_nonnegative(s.drop_last(), radix);
        if digits_value(s, radix) is Some {
            let a = digits_value(s.drop_last(), radix)->0;
            let d = digit_of(s.last(), radix)->0;
            assert(a * radix + d >= a) by (nonlinear_arith)
                requires
                    a >= 0,
                    radix >= 2,
                    d >= 0,
            ;
        }
    }
}

proof fn lemma_digits_nonnegative(s: Seq<char>, radix: int)
    requires
        2 <= radix <= 16,
    ensures
        digits_value(s, radix) is Some ==> digits_value(s, radix)->0 >= 0,
    decreases s.len(),
{
    if s.len() > 0 {
        lemma_digits_nonnegative(s.drop_last(), radix);
        if digits_value(s, radix) is Some {
            let a = digits_value(s.drop_last(), radix)->0;
            let d = digit_of(s.last(), radix)->0;
            assert(a * radix + d >= 0) by (nonlinear_arith)
                requires
                    a >= 0,
                    radix >= 2,
                    d >= 0,
            ;
        }
    }
}

/// The value of a character as a digit in the given radix.
fn digit(c: char, radix: u32) -> (r: Option<u64>)
    requires
        2 <= radix <= 16,
    ensures
        match r {
            Some(d) => digit_of(c, radix as int) == Some(d as int) && d < radix,
            None => digit_of(c, radix as int) is None,
        },
{
    let v: u32 = if '0' <= c && c <= '9' {
        c as u32 - '0' as u32
    } else if 'a' <= c && c <= 'f' {
        c as u32 - 'a' as u32 + 10
    } else if 'A' <= c && c <= 'F' {
        c as u32 - 'A' as u32 + 10
    } else {
        16
    };
    if v < radix {
        Some(v as u64)
    } else {
        None
    }
}

/// Reads the characters of `text` from position `from` on as a numeral in
/// the given radix. Returns its value, if there is a numeral and its value
/// does not exceed `limit`.
fn parse_numeral(text: &str, from: usize, radix: u32, limit: u64) -> (r: Option<u64>)
    requires
        2 <= radix <= 16,
        from <= text@.len(),
    ensures
        r == match numeral(text@.skip(from as int), radix as int) {
            Some(v) => if v <= limit {
                Some(v as u64)
            } else {
                None
            },
            None => None::<u64>,
        },
        r matches Some(x) ==> x <= limit,
{
    let n = text.unicode_len();
    let ghost s = text@.skip(from as int);
    if from >= n {
        return None;
    }
    let mut acc: u64 = 0;
    let mut i: usize = from;
    while i < n
        invariant
            from <= i <= n,
            n == text@.len(),
            s == text@.skip(from as int),
            2 <= radix <= 16,
            digits_value(s.take(i - from), radix as int) == Some(acc as int),
            acc <= limit,
        decreases n - i,
    {
        let c = text.get_char(i);
        proof {
            assert(s.take(i - from + 1).drop_last() =~= s.take(i - from));
            assert(s.take(i - from + 1).last() == c);
            lemma_digits_prefix(s, radix as int, i - from + 1);
        }
        match digit(c, radix) {
            None => {
                return None;
            },
            Some(d) => {
                if d > limit || acc > (limit - d) / (radix as u64) {
                    proof {
                        let r = radix as int;
                        assert(acc * r + d > limit) by (nonlinear_arith)
                            requires
                                d > limit || acc > (limit - d) / r,
                                r >= 2,
                                acc >= 0,
                                d >= 0,
                                limit >= 0,
                        ;
                    }
                    return None;
                }
                proof {
                    let r = radix as int;
                    assert(acc * r + d <= limit) by (nonlinear_arith)
                        requires
                            acc <= (limit - d) / r,
                            d <= limit,
                            r >= 2,
                            acc >= 0,
                            d >= 0,
                    ;
                }
                acc = acc * (radix as u64) + d;
            },
        }
        i += 1;
    }
    proof {
        assert(s.take(n - from) =~= s);
    }
    Some(acc)
}

/// True if the text starts with a sign.
fn text_starts_with_sign(text: &str, from: usize) -> (b: bool)
    requires
        from <= text@.len(),
    ensures
        b == starts_with_sign(text@.skip(from as int)),
{
    let n = text.unicode_len();
    if from < n {
        let c = text.get_char(from);
        c == '+' || c == '-'
    } else {
        false
    }
}

/// True if the text, after an optional sign, is a zero followed by one or
/// more decimal digits.
pub fn is_digits_but_not_number(text: &str) -> (b: bool)
    ensures
        b == digits_but_not_number(text@),
{
    let n = text.unicode_len();
    let start: usize = if text_starts_with_sign(text, 0) {
        1
    } else {
        0
    };
    assert(text@.skip(0) =~= text@);
    let ghost t = text@.skip(start as int);
    assert(t =~= strip_sign(text@));
    if n - start <= 1 {
        return false;
    }
    assert(t[0] == text@[start as int]);
    if text.get_char(start) != '0' {
        return false;
    }
    let mut i: usize = start + 1;
    while i < n
        invariant
            start + 1 <= i <= n,
            n == text@.len(),
            t == text@.skip(start as int),
            t == strip_sign(text@),
            t.len() == n - start,
            t.len() > 1,
            t[0] == '0',
            forall|j: int| 1 <= j < i - start ==> '0' <= #[trigger] t[j] <= '9',
        decreases n - i,
    {
        let c = text.get_char(i);
        if !('0' <= c && c <= '9') {
            assert(t[i - start] == c);
            return false;
        }
        i += 1;
    }
    true
}

/// True if the character at position `i` of the text is `c`.
fn char_is(text: &str, i: usize, c: char) -> (b: bool)
    ensures
        b == (i < text@.len() && text@[i as int] == c),
{
    i < text.unicode_len() && text.get_char(i) == c
}

/// Reads the text as a non-negative integer.
pub fn parse_unsigned(text: &str) -> (r: Option<u64>)
    ensures
        r == spec_unsigned(text@),
{
    let start: usize = if char_is(text, 0, '+') {
        1
    } else {
        0
    };
    let ghost u = strip_plus(text@);
    assert(text@.skip(0) =~= text@);
    assert(u =~= text@.skip(start as int));
    if text.unicode_len() >= start + 2 {
        assert(u.skip(2) =~= text@.skip(start + 2));
    }
    if char_is(text, start, '0') && char_is(text, start + 1, 'x') {
        parse_numeral(text, start + 2, 16, u64::MAX)
    } else if char_is(text, start, '0') && char_is(text, start + 1, 'o') {
        parse_numeral(text, start + 2, 8, u64::MAX)
    } else if char_is(text, start, '0') && char_is(text, start + 1, 'b') {
        parse_numeral(text, start + 2, 2, u64::MAX)
    } else if text_starts_with_sign(text, start) || is_digits_but_not_number(text) {
        None
    } else {
        parse_numeral(text, start, 10, u64::MAX)
    }
}

/// Reads a text with a minus sign as an integer.
pub fn parse_negative(text: &str) -> (r: Option<i64>)
    ensures
        r == spec_negative(text@),
{
    let limit: u64 = 0x8000_0000_0000_0000;
    let minus = char_is(text, 0, '-');
    proof {
        lemma_digits_nonnegative(text@.skip(3), 16);
        lemma_digits_nonnegative(text@.skip(3), 8);
        lemma_digits_nonnegative(text@.skip(3), 2);
        lemma_digits_nonnegative(text@.skip(1), 10);
    }
    let found: Option<u64> = if minus && char_is(text, 1, '0') && char_is(text, 2, 'x') {
        parse_numeral(text, 3, 16, limit)
    } else if minus && char_is(text, 1, '0') && char_is(text, 2, 'o') {
        parse_numeral(text, 3, 8, limit)
    } else if minus && char_is(text, 1, '0') && char_is(text, 2, 'b') {
        parse_numeral(text, 3, 2, limit)
    } else if minus && !is_digits_but_not_number(text) {
        parse_numeral(text, 1, 10, limit)
    } else {
        None
    };
    negate(found)
}

/// The negative of a magnitude that does not exceed two to the power of
/// sixty-three.
fn negate(found: Option<u64>) -> (r: Option<i64>)
    requires
        found matches Some(v) ==> v <= 0x8000_0000_0000_0000,
    ensures
        r == match found {
            Some(v) => Some((-(v as int)) as i64),
            None => None::<i64>,
        },
{
    match found {
        Some(v) => {
            if v == 0x8000_0000_0000_0000 {
                Some(i64::MIN)
            } else {
                Some(-(v as i64))
            }
        },
        None => None,
    }
}

/// The text that is to be handed to a parser of decimal floats, if the
/// scalar can be a float at all.
pub fn float_candidate(text: &str) -> (r: Option<&str>)
    ensures
        match r {
            Some(u) => spec_float_candidate(text@) == Some(u@),
            None => spec_float_candidate(text@) is None,
        },
{
    if is_digits_but_not_number(text) {
        None
    } else if char_is(text, 0, '+') {
        if text_starts_with_sign(text, 1) {
            None
        } else {
            let u = text.substring_char(1, text.unicode_len());
            assert(u@ =~= strip_plus(text@));
            Some(u)
        }
    } else {
        Some(text)
    }
}

/// Reads the text as a float.
pub fn parse_float(text: &str, parsed: Option<u64>) -> (r: Option<u64>)
    ensures
        r == spec_float(text@, parsed),
{
    match float_candidate(text) {
        None => None,
        Some(u) => {
            if same_text(u, ".inf") || same_text(u, ".Inf") || same_text(u, ".INF") {
                Some(POSITIVE_INFINITY)
            } else if same_text(text, "-.inf") || same_text(text, "-.Inf") || same_text(
                text,
                "-.INF",
            ) {
                Some(NEGATIVE_INFINITY)
            } else if same_text(text, ".nan") || same_text(text, ".NaN") || same_text(
                text,
                ".NAN",
            ) {
                Some(CANONICAL_NAN)
            } else {
                match parsed {
                    Some(bits) => if ((bits >> 52) & 0x7ff) != 0x7ff {
                        Some(bits)
                    } else {
                        None
                    },
                    None => None,
                }
            }
        },
    }
}

impl Value {
    /// Reads the text of a plain scalar: as null, a boolean, an integer or a
    /// float where it spells one, and as a text otherwise.
    ///
    /// `parsed` is the bit pattern that a parser of decimal floats found in
    /// the text that [`float_candidate`] gives for the scalar, if it found
    /// one; the library itself reads only the spellings of the infinities
    /// and of NaN.
    pub fn from_scalar(text: &str, parsed: Option<u64>) -> (v: Value)
        ensures
            v@ == spec_resolve(text@, parsed),
    {
        if text.unicode_len() == 0 || same_text(text, "~") || same_text(text, "null") || same_text(
            text,
            "Null",
        ) || same_text(text, "NULL") {
            return Value::null();
        }
        if same_text(text, "true") || same_text(text, "True") || same_text(text, "TRUE") {
            return Value::bool(true);
        }
        if same_text(text, "false") || same_text(text, "False") || same_text(text, "FALSE") {
            return Value::bool(false);
        }
        match parse_unsigned(text) {
            Some(u) => {
                return Value::number(Number::from_u64(u));
            },
            None => {},
        }
        match parse_negative(text) {
            Some(i) => {
                return Value::number(Number::from_i64(i));
            },
            None => {},
        }
        match parse_float(text, parsed) {
            Some(bits) => {
                return Value::number(Number::from_float_bits(bits));
            },
            None => {},
        }
        Value::string(String::from_str(text))
    }
}

} // verus!
