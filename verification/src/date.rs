//! A plain calendar date (year, month, day — no time of day) and its wire
//! form: two-digit year, month and day, dash-separated (`14-07-08` for
//! 8 July 2014).

use vstd::prelude::*;
use vstd::seq_lib::lemma_concat_associative;
use vstd::string::StringExecFns;
use crate::render::push_two_digit;
use crate::render::two_digit_rep;

verus! {

/// A calendar date, held as plain year/month/day numbers.
#[derive(Clone, Copy, Debug, PartialEq, Eq, Structural)]
pub struct Date {
    pub year: usize,
    pub month: usize,
    pub day: usize,
}

impl Date {
    /// A date from its parts; month and day must lie in calendar range.
    pub fn new(year: usize, month: usize, day: usize) -> (d: Date)
        requires
            1 <= month <= 12,
            1 <= day <= 31,
        ensures
            d == (Date { year, month, day }),
    {
        Date { year, month, day }
    }
}

/// `YY-MM-DD`: the year modulo 100 and the month and day, each zero-padded
/// to two digits.
pub open spec fn date_rep(d: Date) -> Seq<char> {
    two_digit_rep(d.year as int % 100) + "-"@ + two_digit_rep(d.month as int) + "-"@
        + two_digit_rep(d.day as int)
}

/// Append the `YY-MM-DD` form of `d`.
pub fn push_date(s: &mut String, d: Date)
    ensures
        final(s)@ == old(s)@ + date_rep(d),
{
    push_two_digit(s, d.year % 100);
    s.append("-");
    push_two_digit(s, d.month);
    s.append("-");
    push_two_digit(s, d.day);
    proof {
        let y = two_digit_rep(d.year as int % 100);
        let m = two_digit_rep(d.month as int);
        let dd = two_digit_rep(d.day as int);
        lemma_concat_associative(old(s)@, y, "-"@);
        lemma_concat_associative(old(s)@, y + "-"@, m);
        lemma_concat_associative(old(s)@, y + "-"@ + m, "-"@);
        lemma_concat_associative(old(s)@, y + "-"@ + m + "-"@, dd);
    }
}

} // verus!
