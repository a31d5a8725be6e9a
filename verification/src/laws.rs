//! Laws of the resolution rules, stated and proved once for all inputs.

use vstd::prelude::*;
use crate::date::CalendarDate;
use crate::resolve::{spec_resolve, all_digits, digits_val};

verus! {

/// Law: a two-digit day token that resolves keeps the reference month
/// and year when the day has not yet passed; a day already past moves
/// to the following month, wrapping to January of the next year when
/// the reference month is December. The day of the resolved date is
/// always the number the token denotes.
pub proof fn lemma_day_token_month_choice(tok: Seq<char>, today: CalendarDate)
    requires
        today.wf(),
        tok.len() == 2,
        all_digits(tok),
    ensures
        spec_resolve(tok, today) matches Some(d) ==> {
            &&& d.day as int == digits_val(tok)
            &&& digits_val(tok) >= today.day ==> d.year == today.year && d.month == today.month
            &&& digits_val(tok) < today.day && today.month < 12 ==> d.year == today.year
                && d.month == today.month + 1
            &&& digits_val(tok) < today.day && today.month == 12 ==> d.year == today.year + 1
                && d.month == 1
        },
{
}

/// Law: a five-character `MM-DD` token never changes the year; whenever
/// it resolves at all, the resolved year is the reference year, even
/// when the resulting date lies before the reference date.
pub proof fn lemma_month_day_token_keeps_year(tok: Seq<char>, today: CalendarDate)
    requires
        today.wf(),
        tok.len() == 5,
    ensures
        spec_resolve(tok, today) matches Some(d) ==> d.year == today.year,
{
}

} // verus!
