//! Rendering of the primitive query-string pieces: decimal numbers,
//! zero-padded two-digit numbers, `0`/`1` booleans, and comma-joined lists.
//!
//! Each spec function gives the exact character sequence; each exec function
//! appends that sequence to an accumulating `String`.

use vstd::prelude::*;
use vstd::seq_lib::lemma_concat_associative;
use vstd::string::StringExecFns;
use crate::types::ThingType;

verus! {

/// The one-character sequence for a decimal digit.
pub open spec fn digit_lit(n: int) -> Seq<char> {
    if n == 0 {
        "0"@
    } else if n == 1 {
        "1"@
    } else if n == 2 {
        "2"@
    } else if n == 3 {
        "3"@
    } else if n == 4 {
        "4"@
    } else if n == 5 {
        "5"@
    } else if n == 6 {
        "6"@
    } else if n == 7 {
        "7"@
    } else if n == 8 {
        "8"@
    } else {
        "9"@
    }
}

/// The usual decimal rendering of a non-negative integer, no leading zeros
/// (a single `0` for zero itself).
pub open spec fn dec_rep(n: int) -> Seq<char>
    decreases n,
{
    if n < 10 {
        digit_lit(n)
    } else {
        dec_rep(n / 10) + digit_lit(n % 10)
    }
}

/// A number rendered to at least two digits, zero-padded on the left.
pub open spec fn two_digit_rep(n: int) -> Seq<char> {
    if n < 10 {
        "0"@ + digit_lit(n)
    } else {
        dec_rep(n)
    }
}

/// Booleans go on the wire as `1` (true) or `0` (false).
pub open spec fn bool_rep(b: bool) -> Seq<char> {
    if b {
        "1"@
    } else {
        "0"@
    }
}

/// Ids joined by commas, in sequence order; empty sequence renders empty.
pub open spec fn ids_rep(ids: Seq<usize>) -> Seq<char>
    decreases ids.len(),
{
    if ids.len() == 0 {
        Seq::empty()
    } else if ids.len() == 1 {
        dec_rep(ids[0] as int)
    } else {
        ids_rep(ids.drop_last()) + ","@ + dec_rep(ids.last() as int)
    }
}

/// Item-category wire names joined by commas, in sequence order.
pub open spec fn types_rep(ts: Seq<ThingType>) -> Seq<char>
    decreases ts.len(),
{
    if ts.len() == 0 {
        Seq::empty()
    } else if ts.len() == 1 {
        ts[0].wire_name()
    } else {
        types_rep(ts.drop_last()) + ","@ + ts.last().wire_name()
    }
}

fn digit_str(d: usize) -> (r: &'static str)
    requires
        d < 10,
    ensures
        r@ == digit_lit(d as int),
{
    match d {
        0 => "0",
        1 => "1",
        2 => "2",
        3 => "3",
        4 => "4",
        5 => "5",
        6 => "6",
        7 => "7",
        8 => "8",
        _ => "9",
    }
}

/// Append the decimal rendering of `n`.
pub fn push_dec(s: &mut String, n: usize)
    ensures
        final(s)@ == old(s)@ + dec_rep(n as int),
    decreases n,
{
    if n >= 10 {
        push_dec(s, n / 10);
    }
    let d = digit_str(n % 10);
    s.append(d);
    proof {
        if n >= 10 {
            lemma_concat_associative(old(s)@, dec_rep(n as int / 10), digit_lit(n as int % 10));
        }
    }
}

/// Append `n` zero-padded to at least two digits.
pub fn push_two_digit(s: &mut String, n: usize)
    ensures
        final(s)@ == old(s)@ + two_digit_rep(n as int),
{
    if n < 10 {
        s.append("0");
        push_dec(s, n);
        proof {
            lemma_concat_associative(old(s)@, "0"@, digit_lit(n as int));
        }
    } else {
        push_dec(s, n);
    }
}

/// Append `1` or `0` for a boolean flag.
pub fn push_bool(s: &mut String, b: bool)
    ensures
        final(s)@ == old(s)@ + bool_rep(b),
{
    if b {
        s.append("1");
    } else {
        s.append("0");
    }
}

/// Append the comma-joined decimal ids.
pub fn push_ids(s: &mut String, ids: &Vec<usize>)
    ensures
        final(s)@ == old(s)@ + ids_rep(ids@),
{
    let mut i: usize = 0;
    while i < ids.len()
        invariant
            i <= ids@.len(),
            s@ == old(s)@ + ids_rep(ids@.subrange(0, i as int)),
        decreases ids@.len() - i,
    {
        let ghost done = ids@.subrange(0, i as int);
        if i > 0 {
            s.append(",");
        }
        push_dec(s, ids[i]);
        proof {
            let next = ids@.subrange(0, i + 1 as int);
            assert(next.last() == ids@[i as int]);
            if i == 0 {
                assert(old(s)@ + ids_rep(done) =~= old(s)@);
                assert(next.len() == 1);
            } else {
                assert(next.drop_last() =~= done);
                lemma_concat_associative(old(s)@, ids_rep(done), ","@);
                lemma_concat_associative(old(s)@, ids_rep(done) + ","@, dec_rep(ids@[i as int] as int));
            }
        }
        i = i + 1;
    }
    proof {
        assert(ids@.subrange(0, ids@.len() as int) =~= ids@);
    }
}

/// Append the comma-joined category wire names.
pub fn push_types(s: &mut String, ts: &Vec<ThingType>)
    ensures
        final(s)@ == old(s)@ + types_rep(ts@),
{
    let mut i: usize = 0;
    while i < ts.len()
        invariant
            i <= ts@.len(),
            s@ == old(s)@ + types_rep(ts@.subrange(0, i as int)),
        decreases ts@.len() - i,
    {
        let ghost done = ts@.subrange(0, i as int);
        if i > 0 {
            s.append(",");
        }
        let w = ts[i].as_str();
        s.append(w);
        proof {
            let next = ts@.subrange(0, i + 1 as int);
            assert(next.last() == ts@[i as int]);
            if i == 0 {
                assert(old(s)@ + types_rep(done) =~= old(s)@);
                assert(next.len() == 1);
            } else {
                assert(next.drop_last() =~= done);
                lemma_concat_associative(old(s)@, types_rep(done), ","@);
                lemma_concat_associative(old(s)@, types_rep(done) + ","@, ts@[i as int].wire_name());
            }
        }
        i = i + 1;
    }
    proof {
        assert(ts@.subrange(0, ts@.len() as int) =~= ts@);
    }
}

} // verus!
