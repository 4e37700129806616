//! Decimal and hexadecimal renderings of numbers, as the wire format spells
//! them, and small helpers for building request text.

use vstd::prelude::*;

verus! {

/// The lowercase hexadecimal digit for `d` (below sixteen).
pub open spec fn hex_digit(d: nat) -> char {
    seq!['0', '1', '2', '3', '4', '5', '6', '7', '8', '9', 'a', 'b', 'c', 'd', 'e', 'f'][d as int]
}

/// The decimal digits of `n`, most significant first, without leading zeros.
pub open spec fn decimal(n: nat) -> Seq<char>
    decreases n,
{
    if n < 10 {
        seq![hex_digit(n)]
    } else {
        decimal(n / 10).push(hex_digit(n % 10))
    }
}

/// The decimal rendering of a signed number: a minus sign before the digits
/// of its magnitude when it is negative.
pub open spec fn signed_decimal(i: int) -> Seq<char> {
    if i < 0 {
        seq!['-'] + decimal((-i) as nat)
    } else {
        decimal(i as nat)
    }
}

/// The last `count` hexadecimal digits of `v`, most significant first,
/// padded with zeros.
pub open spec fn hex_digits(v: nat, count: nat) -> Seq<char>
    decreases count,
{
    if count == 0 {
        Seq::empty()
    } else {
        hex_digits(v / 16, (count - 1) as nat).push(hex_digit(v % 16))
    }
}

/// The hyphenated lowercase form of a 128-bit UUID: its 32 hexadecimal
/// digits in groups of 8, 4, 4, 4 and 12.
pub open spec fn hyphenated_uuid(v: nat) -> Seq<char> {
    let h = hex_digits(v, 32);
    h.subrange(0, 8) + seq!['-'] + h.subrange(8, 12) + seq!['-'] + h.subrange(12, 16) + seq!['-']
        + h.subrange(16, 20) + seq!['-'] + h.subrange(20, 32)
}

/// The text of one decimal digit.
fn digit_text(d: u64) -> (s: &'static str)
    requires
        d < 10,
    ensures
        s@ == seq![hex_digit(d as nat)],
{
    proof {
        reveal_strlit("0");
        reveal_strlit("1");
        reveal_strlit("2");
        reveal_strlit("3");
        reveal_strlit("4");
        reveal_strlit("5");
        reveal_strlit("6");
        reveal_strlit("7");
        reveal_strlit("8");
        reveal_strlit("9");
    }
    if d == 0 {
        "0"
    } else if d == 1 {
        "1"
    } else if d == 2 {
        "2"
    } else if d == 3 {
        "3"
    } else if d == 4 {
        "4"
    } else if d == 5 {
        "5"
    } else if d == 6 {
        "6"
    } else if d == 7 {
        "7"
    } else if d == 8 {
        "8"
    } else {
        "9"
    }
}

/// Decimal text of an unsigned number, as `Display` prints it: the digits
/// without sign, padding or leading zeros.
pub fn u64_text(n: u64) -> (s: String)
    ensures
        s@ == decimal(n as nat),
    decreases n,
{
    if n < 10 {
        owned(digit_text(n))
    } else {
        let mut s = u64_text(n / 10);
        push_text(&mut s, digit_text(n % 10));
        s
    }
}

/// Decimal text of a signed number, as `Display` prints it: a leading `-`
/// for a negative number, then the digits of its magnitude.
pub fn i64_text(n: i64) -> (s: String)
    ensures
        s@ == signed_decimal(n as int),
{
    if n < 0 {
        let magnitude = (-(n as i128)) as u64;
        proof {
            reveal_strlit("-");
        }
        let mut s = owned("-");
        push_text(&mut s, u64_text(magnitude).as_str());
        s
    } else {
        u64_text(n as u64)
    }
}

/// Hyphenated text of a UUID given by its 128-bit value.
///
/// Trusted: calls `uuid::Uuid::from_u128` (which takes the value's
/// big-endian bytes) and then `to_string`, which uuid's `Display` renders as
/// the lowercase hyphenated form.
#[verifier::external_body]
pub fn uuid_text(id: u128) -> (s: String)
    ensures
        s@ == hyphenated_uuid(id as nat),
{
    uuid::Uuid::from_u128(id).to_string()
}

/// The text `Debug` shows for the string `s`: quoted, with escapes.
pub uninterp spec fn debug_quoted(s: Seq<char>) -> Seq<char>;

/// The text `Debug` shows for a string.
///
/// Trusted: formats the string with `{:?}`, std's `Debug` for `str`, which
/// wraps it in double quotes and escapes quotes, backslashes and characters
/// that do not print. The contract only names the result.
#[verifier::external_body]
pub(crate) fn debug_str_text(s: &str) -> (r: String)
    ensures
        r@ == debug_quoted(s@),
{
    format!("{:?}", s)
}

/// A fresh string holding `s`.
pub fn owned(s: &str) -> (r: String)
    ensures
        r@ == s@,
{
    s.to_owned()
}

/// Appends `tail` to `s`.
pub fn push_text(s: &mut String, tail: &str)
    ensures
        final(s)@ == old(s)@ + tail@,
{
    s.append(tail);
}

/// The texts of query pairs.
pub open spec fn pairs_view(pairs: Seq<(String, String)>) -> Seq<(Seq<char>, Seq<char>)> {
    pairs.map_values(|p: (String, String)| (p.0@, p.1@))
}

/// Appends the query pair `name=value` to `pairs`.
pub fn push_pair(pairs: &mut Vec<(String, String)>, name: &str, value: String)
    ensures
        pairs_view(final(pairs)@) == pairs_view(old(pairs)@).push((name@, value@)),
{
    pairs.push((owned(name), value));
    assert(pairs_view(pairs@) =~= pairs_view(old(pairs)@).push((name@, value@)));
}

/// The query pair `name=<decimal value>` when there is a value, no pair
/// otherwise.
pub open spec fn optional_number_pair(name: Seq<char>, value: Option<u64>) -> Seq<(Seq<char>, Seq<char>)> {
    match value {
        Some(v) => seq![(name, decimal(v as nat))],
        None => Seq::empty(),
    }
}

/// Appends `name=<decimal value>` to `pairs` when there is a value.
pub fn push_optional_number(pairs: &mut Vec<(String, String)>, name: &str, value: Option<u64>)
    ensures
        pairs_view(final(pairs)@) == pairs_view(old(pairs)@) + optional_number_pair(name@, value),
{
    match value {
        Some(v) => {
            push_pair(pairs, name, u64_text(v));
            assert(pairs_view(pairs@) =~= pairs_view(old(pairs)@) + optional_number_pair(name@, value));
        },
        None => {
            assert(pairs_view(pairs@) =~= pairs_view(old(pairs)@) + optional_number_pair(name@, value));
        },
    }
}

/// An optional count, widened.
pub open spec fn widen_spec(value: Option<u32>) -> Option<u64> {
    match value {
        Some(v) => Some(v as u64),
        None => None,
    }
}

/// Widens an optional count.
pub fn widen(value: Option<u32>) -> (r: Option<u64>)
    ensures
        r == widen_spec(value),
{
    match value {
        Some(v) => Some(v as u64),
        None => None,
    }
}

} // verus!
