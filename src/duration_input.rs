use vstd::prelude::*;
use vstd::string::{StrSliceExecFns, StringExecFns};
use crate::clock_text::{decimal, digit_char, digit_str, push_decimal};

verus! {

pub open spec fn is_digit(c: char) -> bool {
    '0' <= c <= '9'
}

/// The characters of `s` that are ASCII digits, in order.
pub open spec fn digits_only(s: Seq<char>) -> Seq<char>
    decreases s.len(),
{
    if s.len() == 0 {
        seq![]
    } else if is_digit(s.last()) {
        digits_only(s.drop_last()).push(s.last())
    } else {
        digits_only(s.drop_last())
    }
}

/// Whether every character of `s` is a digit.
pub open spec fn all_digits(s: Seq<char>) -> bool {
    forall|i: int| 0 <= i < s.len() ==> is_digit(#[trigger] s[i])
}

/// The number that the digits of `s` spell (non-digits count as their offset from
/// `'0'`; only meaningful where `all_digits(s)`).
pub open spec fn digits_value(s: Seq<char>) -> int
    decreases s.len(),
{
    if s.len() == 0 {
        0
    } else {
        digits_value(s.drop_last()) * 10 + (s.last() as int - '0' as int)
    }
}

/// Whether `s` is a non-empty run of digits whose number fits in `u32`.
pub open spec fn is_u32_text(s: Seq<char>) -> bool {
    s.len() > 0 && all_digits(s) && digits_value(s) <= u32::MAX
}

/// A duration field's value: the number it spells when it is a non-empty run of
/// digits that fits in `u32`, else zero.
pub open spec fn field_value(s: Seq<char>) -> nat {
    if is_u32_text(s) {
        digits_value(s) as nat
    } else {
        0
    }
}

/// A duration field as it is shown after an edit: its digits only, written without
/// leading zeros when they spell a `u32`.
pub open spec fn normalized(s: Seq<char>) -> Seq<char> {
    let d = digits_only(s);
    if d.len() > 0 && digits_value(d) <= u32::MAX {
        decimal(digits_value(d) as nat)
    } else {
        d
    }
}

proof fn lemma_digits_only_all_digits(s: Seq<char>)
    ensures
        all_digits(digits_only(s)),
    decreases s.len(),
{
    if s.len() > 0 {
        lemma_digits_only_all_digits(s.drop_last());
    }
}

proof fn lemma_value_grows(s: Seq<char>, c: char)
    requires
        all_digits(s),
        is_digit(c),
    ensures
        digits_value(s.push(c)) >= digits_value(s),
        digits_value(s) >= 0,
    decreases s.len(),
{
    if s.len() > 0 {
        assert(all_digits(s.drop_last()));
        lemma_value_grows(s.drop_last(), s.last());
    }
    assert(s.push(c).drop_last() =~= s);
}

/// The number that `text` spells, when it is a non-empty run of digits that fits in
/// `u32`.
pub fn read_u32(text: &str) -> (r: Option<u32>)
    ensures
        r.is_some() == is_u32_text(text@),
        r.is_some() ==> r.unwrap() == digits_value(text@),
{
    let n = text.unicode_len();
    let mut i: usize = 0;
    let mut value: u64 = 0;
    let mut digits: bool = true;
    let mut fits: bool = true;
    while i < n
        invariant
            n == text@.len(),
            0 <= i <= n,
            digits == all_digits(text@.subrange(0, i as int)),
            digits ==> (fits <==> digits_value(text@.subrange(0, i as int)) <= u32::MAX),
            digits && fits ==> value == digits_value(text@.subrange(0, i as int)),
        decreases n - i,
    {
        let c = text.get_char(i);
        let ghost pre = text@.subrange(0, i as int);
        assert(text@.subrange(0, i + 1) =~= pre.push(c));
        assert(pre.push(c).drop_last() =~= pre);
        if '0' <= c && c <= '9' {
            if digits {
                proof {
                    lemma_value_grows(pre, c);
                }
                if fits {
                    let next = value * 10 + (c as u64 - '0' as u64);
                    if next > u32::MAX as u64 {
                        fits = false;
                    } else {
                        value = next;
                    }
                }
            }
        } else {
            digits = false;
        }
        i = i + 1;
    }
    assert(text@.subrange(0, n as int) =~= text@);
    if n > 0 && digits && fits {
        Some(value as u32)
    } else {
        None
    }
}

/// Reads a duration field: the number its digits spell, or zero when it is empty,
/// holds anything but digits, or does not fit in `u32`.
pub fn parse_field(text: &str) -> (r: u32)
    ensures
        r == field_value(text@),
{
    match read_u32(text) {
        Some(v) => v,
        None => 0,
    }
}

/// The total of a duration given as hours, minutes and seconds, in seconds.
pub fn total_seconds(hours: u32, minutes: u32, seconds: u32) -> (r: u64)
    ensures
        r == hours * 3600 + minutes * 60 + seconds,
{
    hours as u64 * 3600 + minutes as u64 * 60 + seconds as u64
}

/// The field after an edit: non-digits dropped, then rewritten without leading
/// zeros when the digits spell a `u32`.
pub fn normalize_field(text: &str) -> (r: String)
    ensures
        r@ == normalized(text@),
{
    let n = text.unicode_len();
    let mut kept = String::new();
    let mut i: usize = 0;
    while i < n
        invariant
            n == text@.len(),
            0 <= i <= n,
            kept@ == digits_only(text@.subrange(0, i as int)),
        decreases n - i,
    {
        let c = text.get_char(i);
        let ghost pre = text@.subrange(0, i as int);
        assert(text@.subrange(0, i + 1) =~= pre.push(c));
        assert(pre.push(c).drop_last() =~= pre);
        if '0' <= c && c <= '9' {
            let d = c as u64 - '0' as u64;
            assert(digit_char(d as int) == c);
            kept.append(digit_str(d));
            assert(kept@ =~= digits_only(text@.subrange(0, i + 1)));
        }
        i = i + 1;
    }
    assert(text@.subrange(0, n as int) =~= text@);
    proof {
        lemma_digits_only_all_digits(text@);
    }
    match read_u32(kept.as_str()) {
        Some(v) => {
            let mut out = String::new();
            push_decimal(&mut out, v as u64);
            assert(out@ =~= decimal(v as nat));
            out
        },
        None => kept,
    }
}

} // verus!
