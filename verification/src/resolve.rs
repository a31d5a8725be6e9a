//! Resolution of user-typed date tokens against a reference date.
//!
//! Three token shapes are accepted: `DD` (day of month, pushed into the
//! following month when the day has already passed), `MM-DD` (always in
//! the reference year), and `YYYY-MM-DD`. Everything else is rejected.

use vstd::prelude::*;
use vstd::string::*;
use crate::date::{CalendarDate, valid_date};
use crate::error::MenuError;

verus! {

pub open spec fn is_digit_char(c: char) -> bool {
    48 <= c as u32 && c as u32 <= 57
}

pub open spec fn digit_val(c: char) -> int {
    c as u32 - 48
}

pub open spec fn all_digits(s: Seq<char>) -> bool {
    forall|i: int| 0 <= i < s.len() ==> is_digit_char(#[trigger] s[i])
}

/// The number a string of decimal digits denotes, leading zeros allowed.
pub open spec fn digits_val(s: Seq<char>) -> int
    decreases s.len(),
{
    if s.len() == 0 {
        0
    } else {
        digits_val(s.drop_last()) * 10 + digit_val(s.last())
    }
}

proof fn lemma_digits_val_bounds(s: Seq<char>)
    requires
        all_digits(s),
    ensures
        0 <= digits_val(s),
        s.len() <= 1 ==> digits_val(s) < 10,
        s.len() <= 2 ==> digits_val(s) < 100,
        s.len() <= 3 ==> digits_val(s) < 1000,
        s.len() <= 4 ==> digits_val(s) < 10000,
    decreases s.len(),
{
    if s.len() > 0 {
        assert(all_digits(s.drop_last())) by {
            assert(forall|i: int|
                0 <= i < s.len() - 1 ==> s.drop_last()[i] == #[trigger] s[i]);
        }
        lemma_digits_val_bounds(s.drop_last());
        assert(is_digit_char(s.last()));
    }
}

/// A successful resolution yields a real date; the option is `None` on
/// any malformed token or impossible date.
pub open spec fn make_date(y: int, m: int, d: int) -> Option<CalendarDate> {
    if valid_date(y, m, d) {
        Some(CalendarDate { year: y as u32, month: m as u32, day: d as u32 })
    } else {
        None
    }
}

/// `DD`: keep the reference month unless the day has already passed, in
/// which case move to the next month, wrapping the year in December.
pub open spec fn spec_resolve_day(tok: Seq<char>, today: CalendarDate) -> Option<CalendarDate> {
    if all_digits(tok) {
        let day = digits_val(tok);
        if day < today.day {
            if today.month == 12 {
                make_date(today.year + 1, 1, day)
            } else {
                make_date(today.year as int, today.month + 1, day)
            }
        } else {
            make_date(today.year as int, today.month as int, day)
        }
    } else {
        None
    }
}

/// One split of a five-character token: digits before position `i`, a
/// hyphen at `i`, digits after, read as month and day in the reference year.
pub open spec fn spec_md_parts(tok: Seq<char>, i: int, today: CalendarDate) -> Option<
    CalendarDate,
> {
    let p1 = tok.subrange(0, i);
    let p2 = tok.subrange(i + 1, 5);
    if all_digits(p1) && all_digits(p2) {
        make_date(today.year as int, digits_val(p1), digits_val(p2))
    } else {
        None
    }
}

/// `MM-DD` and its degenerate relatives: the token must contain exactly
/// one hyphen, with a non-empty run of digits on each side.
pub open spec fn spec_resolve_month_day(tok: Seq<char>, today: CalendarDate) -> Option<
    CalendarDate,
> {
    if tok[0] == '-' || tok[4] == '-' {
        None
    } else {
        let h1 = tok[1] == '-';
        let h2 = tok[2] == '-';
        let h3 = tok[3] == '-';
        if h1 && !h2 && !h3 {
            spec_md_parts(tok, 1, today)
        } else if !h1 && h2 && !h3 {
            spec_md_parts(tok, 2, today)
        } else if !h1 && !h2 && h3 {
            spec_md_parts(tok, 3, today)
        } else {
            None
        }
    }
}

/// `YYYY-MM-DD`, strictly against that layout.
pub open spec fn spec_resolve_full(tok: Seq<char>) -> Option<CalendarDate> {
    if tok[4] == '-' && tok[7] == '-' {
        let py = tok.subrange(0, 4);
        let pm = tok.subrange(5, 7);
        let pd = tok.subrange(8, 10);
        if all_digits(py) && all_digits(pm) && all_digits(pd) {
            make_date(digits_val(py), digits_val(pm), digits_val(pd))
        } else {
            None
        }
    } else {
        None
    }
}

/// What `parse_date` returns, by token length.
pub open spec fn spec_resolve(tok: Seq<char>, today: CalendarDate) -> Option<CalendarDate> {
    if tok.len() == 2 {
        spec_resolve_day(tok, today)
    } else if tok.len() == 5 {
        spec_resolve_month_day(tok, today)
    } else if tok.len() == 10 {
        spec_resolve_full(tok)
    } else {
        None
    }
}

/// Reads `s[from..to]` as a decimal number; `None` when the range is
/// empty or holds a non-digit.
fn parse_digits(s: &str, from: usize, to: usize) -> (r: Option<u32>)
    requires
        from <= to <= s@.len(),
        to - from <= 4,
    ensures
        r is Some <==> from < to && all_digits(s@.subrange(from as int, to as int)),
        r matches Some(v) ==> v as int == digits_val(s@.subrange(from as int, to as int)),
{
    if from == to {
        return None;
    }
    let mut acc: u32 = 0;
    let mut i: usize = from;
    while i < to
        invariant
            from <= i <= to,
            to <= s@.len(),
            to - from <= 4,
            all_digits(s@.subrange(from as int, i as int)),
            acc as int == digits_val(s@.subrange(from as int, i as int)),
        decreases to - i,
    {
        let c = s.get_char(i);
        let v = c as u32;
        if v < 48 || v > 57 {
            proof {
                assert(s@.subrange(from as int, to as int)[i - from] == s@[i as int]);
            }
            return None;
        }
        proof {
            lemma_digits_val_bounds(s@.subrange(from as int, i as int));
            assert(s@.subrange(from as int, (i + 1) as int).drop_last() =~= s@.subrange(
                from as int,
                i as int,
            ));
            assert(s@.subrange(from as int, (i + 1) as int).last() == s@[i as int]);
        }
        acc = acc * 10 + (v - 48);
        i = i + 1;
    }
    proof {
        assert(s@.subrange(from as int, to as int) =~= s@.subrange(from as int, i as int));
    }
    Some(acc)
}

fn invalid(msg: &str) -> (r: MenuError)
    ensures
        r matches MenuError::InvalidDate(m) && m@ == msg@,
{
    MenuError::InvalidDate(String::from_str(msg))
}

/// Resolves a date token against the reference date `today`, exactly as
/// `spec_resolve` describes; every failure is an `InvalidDate`.
pub fn parse_date(date_str: &str, today: &CalendarDate) -> (r: Result<CalendarDate, MenuError>)
    requires
        today.wf(),
    ensures
        spec_resolve(date_str@, *today) matches Some(d) ==> r matches Ok(rd) && rd == d,
        spec_resolve(date_str@, *today) is None ==> (r matches Err(e) && e is InvalidDate),
        r matches Ok(rd) ==> rd.wf(),
{
    let n = date_str.unicode_len();
    if n == 2 {
        proof {
            assert(date_str@.subrange(0, 2) =~= date_str@);
        }
        match parse_digits(date_str, 0, 2) {
            None => Err(invalid("Invalid day format")),
            Some(day) => {
                let (y, m): (u32, u32) = if day < today.day {
                    if today.month == 12 {
                        (today.year + 1, 1)
                    } else {
                        (today.year, today.month + 1)
                    }
                } else {
                    (today.year, today.month)
                };
                match CalendarDate::from_ymd(y, m, day) {
                    Some(d) => Ok(d),
                    None => Err(invalid("Invalid date combination")),
                }
            },
        }
    } else if n == 5 {
        let c0 = date_str.get_char(0);
        let c4 = date_str.get_char(4);
        if c0 == '-' || c4 == '-' {
            return Err(invalid("Invalid MM-DD format"));
        }
        let h1 = date_str.get_char(1) == '-';
        let h2 = date_str.get_char(2) == '-';
        let h3 = date_str.get_char(3) == '-';
        let split: usize = if h1 && !h2 && !h3 {
            1
        } else if !h1 && h2 && !h3 {
            2
        } else if !h1 && !h2 && h3 {
            3
        } else {
            return Err(invalid("Invalid MM-DD format"));
        };
        let month = match parse_digits(date_str, 0, split) {
            None => {
                return Err(invalid("Invalid month"));
            },
            Some(v) => v,
        };
        let day = match parse_digits(date_str, split + 1, 5) {
            None => {
                return Err(invalid("Invalid day"));
            },
            Some(v) => v,
        };
        match CalendarDate::from_ymd(today.year, month, day) {
            Some(d) => Ok(d),
            None => Err(invalid("Invalid date combination")),
        }
    } else if n == 10 {
        if !(date_str.get_char(4) == '-' && date_str.get_char(7) == '-') {
            return Err(invalid("Invalid YYYY-MM-DD format"));
        }
        let year = match parse_digits(date_str, 0, 4) {
            None => {
                return Err(invalid("Invalid YYYY-MM-DD format"));
            },
            Some(v) => v,
        };
        let month = match parse_digits(date_str, 5, 7) {
            None => {
                return Err(invalid("Invalid YYYY-MM-DD format"));
            },
            Some(v) => v,
        };
        let day = match parse_digits(date_str, 8, 10) {
            None => {
                return Err(invalid("Invalid YYYY-MM-DD format"));
            },
            Some(v) => v,
        };
        match CalendarDate::from_ymd(year, month, day) {
            Some(d) => Ok(d),
            None => Err(invalid("Invalid YYYY-MM-DD format")),
        }
    } else {
        Err(invalid("Invalid date format. Use DD, MM-DD, or YYYY-MM-DD"))
    }
}

} // verus!
