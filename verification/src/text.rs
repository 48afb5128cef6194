//! Small verified helpers on text: decimal numerals and the marker of
//! catch-all field names.

use vstd::prelude::*;
use vstd::string::*;

verus! {

/// The character that stands for the decimal digit `d`.
pub open spec fn digit_char(d: int) -> char {
    if d == 0 {
        '0'
    } else if d == 1 {
        '1'
    } else if d == 2 {
        '2'
    } else if d == 3 {
        '3'
    } else if d == 4 {
        '4'
    } else if d == 5 {
        '5'
    } else if d == 6 {
        '6'
    } else if d == 7 {
        '7'
    } else if d == 8 {
        '8'
    } else {
        '9'
    }
}

/// The decimal numeral of `n`, without sign or leading zeros.
pub open spec fn decimal(n: nat) -> Seq<char>
    decreases n,
{
    if n < 10 {
        seq![digit_char(n as int)]
    } else {
        decimal(n / 10).push(digit_char((n % 10) as int))
    }
}

/// The decimal numeral of a signed integer: a minus sign before the numeral
/// of the magnitude when `n` is negative.
pub open spec fn signed_decimal(n: int) -> Seq<char> {
    if n < 0 {
        seq!['-'] + decimal((-n) as nat)
    } else {
        decimal(n as nat)
    }
}

fn digit_text(d: u64) -> (s: &'static str)
    requires
        d < 10,
    ensures
        s@ == seq![digit_char(d as int)],
{
    proof {
        reveal_strlit("0");
        reveal_strlit("1");
        reveal_strlit("2");
        reveal_strlit("3");
        reveal_strlit("4");
        reveal_strlit("5");
        reveal_strlit("6");
        reveal_strlit("7");
        reveal_strlit("8");
        reveal_strlit("9");
    }
    let s = if d == 0 {
        "0"
    } else if d == 1 {
        "1"
    } else if d == 2 {
        "2"
    } else if d == 3 {
        "3"
    } else if d == 4 {
        "4"
    } else if d == 5 {
        "5"
    } else if d == 6 {
        "6"
    } else if d == 7 {
        "7"
    } else if d == 8 {
        "8"
    } else {
        "9"
    };
    assert(s@ =~= seq![digit_char(d as int)]);
    s
}

/// Writes `n` as a decimal numeral.
pub fn u64_to_decimal(n: u64) -> (s: String)
    ensures
        s@ == decimal(n as nat),
    decreases n,
{
    if n < 10 {
        String::from_str(digit_text(n))
    } else {
        let mut s = u64_to_decimal(n / 10);
        s.append(digit_text(n % 10));
        assert(s@ =~= decimal(n as nat));
        s
    }
}

/// Writes `n` as a decimal numeral.
pub fn usize_to_decimal(n: usize) -> (s: String)
    ensures
        s@ == decimal(n as nat),
{
    u64_to_decimal(n as u64)
}

/// A field name marks a catch-all field when it is longer than four
/// characters and both starts and ends with two underscores.
pub open spec fn spec_is_flatten_key(key: Seq<char>) -> bool {
    &&& key.len() > 4
    &&& key[0] == '_'
    &&& key[1] == '_'
    &&& key[key.len() - 1] == '_'
    &&& key[key.len() - 2] == '_'
}

/// True if `key` is the name of a catch-all field.
pub fn is_flatten_key(key: &str) -> (b: bool)
    ensures
        b == spec_is_flatten_key(key@),
{
    let n = key.unicode_len();
    n > 4 && key.get_char(0) == '_' && key.get_char(1) == '_' && key.get_char(n - 1) == '_'
        && key.get_char(n - 2) == '_'
}

/// A tag as decode logic sees it: without its leading `!`, unless the tag is
/// that one character alone.
pub open spec fn spec_nobang(tag: Seq<char>) -> Seq<char> {
    if tag.len() > 1 && tag[0] == '!' {
        tag.subrange(1, tag.len() as int)
    } else {
        tag
    }
}

/// Strips the leading `!` of a tag.
pub fn nobang(tag: &str) -> (r: &str)
    ensures
        r@ == spec_nobang(tag@),
{
    let n = tag.unicode_len();
    if n > 1 && tag.get_char(0) == '!' {
        tag.substring_char(1, n)
    } else {
        tag
    }
}

/// True if the two texts hold the same characters.
pub fn same_text(a: &str, b: &str) -> (r: bool)
    ensures
        r == (a@ == b@),
{
    let x = a.to_owned();
    let y = b.to_owned();
    x == y
}

} // verus!
