//! Reading what the user typed.
use vstd::prelude::*;
use vstd::std_specs::iter::IteratorSpec;

use crate::models::Status;

verus! {

pub open spec fn is_digit(c: char) -> bool {
    '0' <= c <= '9'
}

/// Every character of `d` is a decimal digit.
pub open spec fn all_digits(d: Seq<char>) -> bool {
    forall|i: int| 0 <= i < d.len() ==> is_digit(#[trigger] d[i])
}

/// The value of a run of decimal digits.
pub open spec fn digits_value(d: Seq<char>) -> int
    decreases d.len(),
{
    if d.len() == 0 {
        0
    } else {
        digits_value(d.drop_last()) * 10 + (d.last() as int - '0' as int)
    }
}

/// The id that `s` spells: an optional `+` and then one or more decimal
/// digits whose value fits in a `u32`; anything else, spaces included,
/// spells none.
pub open spec fn spec_parse_id(s: Seq<char>) -> Option<u32> {
    let d = if s.len() > 0 && s[0] == '+' {
        s.subrange(1, s.len() as int)
    } else {
        s
    };
    if d.len() > 0 && all_digits(d) && digits_value(d) <= u32::MAX {
        Some(digits_value(d) as u32)
    } else {
        None
    }
}

/// The characters of `s`, in order.
fn chars_of(s: &str) -> (r: Vec<char>)
    ensures
        r@ == s@,
{
    let mut it = s.chars();
    let mut r: Vec<char> = Vec::new();
    loop
        invariant
            r@ + it.remaining() == s@,
            it.obeys_prophetic_iter_laws(),
            it.decrease() is Some,
        decreases it.decrease()->0,
    {
        match it.next() {
            Some(c) => {
                r.push(c);
            },
            None => {
                assert(r@ =~= s@);
                return r;
            },
        }
    }
}

/// Appending digits never lowers the value of a run of digits.
proof fn lemma_digits_value_grows(d: Seq<char>, j: int)
    requires
        0 <= j <= d.len(),
        forall|i: int| 0 <= i < d.len() ==> is_digit(#[trigger] d[i]),
    ensures
        digits_value(d.subrange(0, j)) <= digits_value(d),
    decreases d.len(),
{
    if j < d.len() {
        let init = d.drop_last();
        assert(d.subrange(0, j) =~= init.subrange(0, j));
        assert forall|i: int| 0 <= i < init.len() implies is_digit(#[trigger] init[i]) by {
            assert(init[i] == d[i]);
        }
        lemma_digits_value_grows(init, j);
        assert(digits_value(init) >= 0) by {
            lemma_digits_value_nonnegative(init);
        }
    } else {
        assert(d.subrange(0, j) =~= d);
    }
}

proof fn lemma_digits_value_nonnegative(d: Seq<char>)
    requires
        forall|i: int| 0 <= i < d.len() ==> is_digit(#[trigger] d[i]),
    ensures
        digits_value(d) >= 0,
    decreases d.len(),
{
    if d.len() > 0 {
        let init = d.drop_last();
        assert forall|i: int| 0 <= i < init.len() implies is_digit(#[trigger] init[i]) by {
            assert(init[i] == d[i]);
        }
        lemma_digits_value_nonnegative(init);
        assert(is_digit(d[d.len() - 1]));
    }
}

/// The id that `s` spells, if any; see [`spec_parse_id`].
pub fn parse_id(s: &str) -> (r: Option<u32>)
    ensures
        r == spec_parse_id(s@),
{
    let cs = chars_of(s);
    let start: usize = if cs.len() > 0 && cs[0] == '+' {
        1
    } else {
        0
    };
    let ghost d = if s@.len() > 0 && s@[0] == '+' {
        s@.subrange(1, s@.len() as int)
    } else {
        s@
    };
    assert(d =~= cs@.subrange(start as int, cs@.len() as int));
    if start == cs.len() {
        return None;
    }
    let mut value: u64 = 0;
    let mut i: usize = start;
    while i < cs.len()
        invariant
            start <= i <= cs.len(),
            cs@ == s@,
            d == (if s@.len() > 0 && s@[0] == '+' {
                s@.subrange(1, s@.len() as int)
            } else {
                s@
            }),
            d.len() > 0,
            d == cs@.subrange(start as int, cs@.len() as int),
            forall|k: int| start <= k < i ==> is_digit(#[trigger] cs@[k]),
            value == digits_value(cs@.subrange(start as int, i as int)),
            value <= u32::MAX,
        decreases cs.len() - i,
    {
        let c = cs[i];
        let ghost done = cs@.subrange(start as int, i + 1);
        assert(done.drop_last() =~= cs@.subrange(start as int, i as int));
        if !('0' <= c && c <= '9') {
            assert(d[i - start] == c);
            assert(!all_digits(d));
            return None;
        }
        value = value * 10 + (c as u64 - '0' as u64);
        if value > 0xffff_ffff {
            proof {
                let k = i - start + 1;
                if all_digits(d) {
                    assert(d.subrange(0, k) =~= done);
                    lemma_digits_value_grows(d, k);
                }
            }
            return None;
        }
        i = i + 1;
    }
    proof {
        assert(cs@.subrange(start as int, i as int) =~= d);
        assert forall|m: int| 0 <= m < d.len() implies is_digit(#[trigger] d[m]) by {
            assert(d[m] == cs@[start + m]);
        }
    }
    Some(value as u32)
}

/// Whether `a` and `b` hold the same characters.
pub fn same_text(a: &str, b: &str) -> (r: bool)
    ensures
        r == (a@ == b@),
{
    let x = chars_of(a);
    let y = chars_of(b);
    if x.len() != y.len() {
        return false;
    }
    let mut i: usize = 0;
    while i < x.len()
        invariant
            x@ == a@,
            y@ == b@,
            x.len() == y.len(),
            i <= x.len(),
            forall|k: int| 0 <= k < i ==> x@[k] == y@[k],
        decreases x.len() - i,
    {
        if x[i] != y[i] {
            return false;
        }
        i = i + 1;
    }
    assert(x@ =~= y@);
    true
}

/// The status picked by the answer `s`: 1 open, 2 in progress, 3 resolved,
/// 4 closed; any other answer picks none.
pub open spec fn spec_status_choice(s: Seq<char>) -> Option<Status> {
    match spec_parse_id(s) {
        Some(1) => Some(Status::Open),
        Some(2) => Some(Status::InProgress),
        Some(3) => Some(Status::Resolved),
        Some(4) => Some(Status::Closed),
        _ => None,
    }
}

/// The status that the answer `answer` picks, if any.
pub fn status_choice(answer: &str) -> (r: Option<Status>)
    ensures
        r == spec_status_choice(answer@),
{
    match parse_id(answer) {
        Some(1) => Some(Status::Open),
        Some(2) => Some(Status::InProgress),
        Some(3) => Some(Status::Resolved),
        Some(4) => Some(Status::Closed),
        _ => None,
    }
}

/// Whether the answer `answer` confirms: it is exactly `Y`.
pub fn confirms(answer: &str) -> (r: bool)
    ensures
        r == (answer@ == "Y"@),
{
    same_text(answer, "Y")
}

} // verus!
