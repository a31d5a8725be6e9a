//! Calendar dates, weekday computation, and the formal-hall weekday rule.

use vstd::prelude::*;
use vstd::string::*;
use vstd::arithmetic::div_mod::lemma_div_basics_5;

verus! {

/// Day of the week, with the week starting on Monday.
#[derive(Clone, Copy, Debug, PartialEq, Eq, Structural)]
pub enum Weekday {
    Monday,
    Tuesday,
    Wednesday,
    Thursday,
    Friday,
    Saturday,
    Sunday,
}

pub open spec fn is_leap_year(y: int) -> bool {
    (y % 4 == 0 && y % 100 != 0) || y % 400 == 0
}

pub open spec fn days_in_month(y: int, m: int) -> int {
    if m == 2 {
        if is_leap_year(y) {
            29
        } else {
            28
        }
    } else if m == 4 || m == 6 || m == 9 || m == 11 {
        30
    } else {
        31
    }
}

/// A (year, month, day) triple names a real Gregorian date, within the
/// range that the four-digit year notation can carry.
pub open spec fn valid_date(y: int, m: int, d: int) -> bool {
    &&& 1 <= y <= 9999
    &&& 1 <= m <= 12
    &&& 1 <= d <= days_in_month(y, m)
}

/// A concrete calendar date. Construction through `from_ymd` guarantees
/// `wf`: the triple names a real Gregorian date.
#[derive(Clone, Copy, Debug, PartialEq, Eq, Structural)]
pub struct CalendarDate {
    pub year: u32,
    pub month: u32,
    pub day: u32,
}

pub fn leap_year(y: u32) -> (r: bool)
    ensures
        r == is_leap_year(y as int),
{
    (y % 4 == 0 && y % 100 != 0) || y % 400 == 0
}

pub fn month_length(y: u32, m: u32) -> (r: u32)
    requires
        1 <= m <= 12,
    ensures
        r as int == days_in_month(y as int, m as int),
{
    if m == 2 {
        if leap_year(y) {
            29
        } else {
            28
        }
    } else if m == 4 || m == 6 || m == 9 || m == 11 {
        30
    } else {
        31
    }
}

/// Days in the calendar strictly before year `y`: year 1 is preceded by none.
pub open spec fn days_before_year(y: int) -> int {
    365 * (y - 1) + (y - 1) / 4 - (y - 1) / 100 + (y - 1) / 400
}

/// Days of year `y` strictly before the first of month `m`.
pub open spec fn days_before_month(y: int, m: int) -> int {
    let base: int = if m == 1 {
        0
    } else if m == 2 {
        31
    } else if m == 3 {
        59
    } else if m == 4 {
        90
    } else if m == 5 {
        120
    } else if m == 6 {
        151
    } else if m == 7 {
        181
    } else if m == 8 {
        212
    } else if m == 9 {
        243
    } else if m == 10 {
        273
    } else if m == 11 {
        304
    } else {
        334
    };
    if m >= 3 && is_leap_year(y) {
        base + 1
    } else {
        base
    }
}

/// Ordinal of the date in the whole calendar; the first of January of
/// year 1 is day number 1, and that day is a Monday.
pub open spec fn day_number(y: int, m: int, d: int) -> int {
    days_before_year(y) + days_before_month(y, m) + d
}

/// 0 for Monday up to 6 for Sunday.
pub open spec fn weekday_index(y: int, m: int, d: int) -> int {
    (day_number(y, m, d) - 1) % 7
}

pub open spec fn weekday_from_index(i: int) -> Weekday {
    if i == 0 {
        Weekday::Monday
    } else if i == 1 {
        Weekday::Tuesday
    } else if i == 2 {
        Weekday::Wednesday
    } else if i == 3 {
        Weekday::Thursday
    } else if i == 4 {
        Weekday::Friday
    } else if i == 5 {
        Weekday::Saturday
    } else {
        Weekday::Sunday
    }
}

impl CalendarDate {
    pub open spec fn wf(self) -> bool {
        valid_date(self.year as int, self.month as int, self.day as int)
    }

    /// The only way to obtain a `CalendarDate`: succeeds exactly on
    /// triples that name a real date.
    pub fn from_ymd(year: u32, month: u32, day: u32) -> (r: Option<CalendarDate>)
        ensures
            r is Some <==> valid_date(year as int, month as int, day as int),
            r matches Some(d) ==> d.year == year && d.month == month && d.day == day && d.wf(),
    {
        if 1 <= year && year <= 9999 && 1 <= month && month <= 12 && 1 <= day && day
            <= month_length(year, month) {
            Some(CalendarDate { year, month, day })
        } else {
            None
        }
    }

    pub open spec fn spec_weekday(self) -> Weekday {
        weekday_from_index(weekday_index(self.year as int, self.month as int, self.day as int))
    }

    pub fn weekday(&self) -> (w: Weekday)
        requires
            self.wf(),
        ensures
            w == self.spec_weekday(),
    {
        let y = self.year - 1;
        proof {
            lemma_div_basics_5(y as int, 100);
        }
        let before_years: u32 = 365 * y + y / 4 - y / 100 + y / 400;
        let leap_shift: u32 = if self.month >= 3 && leap_year(self.year) {
            1
        } else {
            0
        };
        let before_months: u32 = month_base(self.month) + leap_shift;
        let n: u32 = before_years + before_months + self.day;
        assert(n as int == day_number(self.year as int, self.month as int, self.day as int));
        let idx = (n - 1) % 7;
        if idx == 0 {
            Weekday::Monday
        } else if idx == 1 {
            Weekday::Tuesday
        } else if idx == 2 {
            Weekday::Wednesday
        } else if idx == 3 {
            Weekday::Thursday
        } else if idx == 4 {
            Weekday::Friday
        } else if idx == 5 {
            Weekday::Saturday
        } else {
            Weekday::Sunday
        }
    }
}

fn month_base(m: u32) -> (r: u32)
    requires
        1 <= m <= 12,
    ensures
        r as int == days_before_month(1, m as int),
{
    if m == 1 {
        0
    } else if m == 2 {
        31
    } else if m == 3 {
        59
    } else if m == 4 {
        90
    } else if m == 5 {
        120
    } else if m == 6 {
        151
    } else if m == 7 {
        181
    } else if m == 8 {
        212
    } else if m == 9 {
        243
    } else if m == 10 {
        273
    } else if m == 11 {
        304
    } else {
        334
    }
}

/// Formal hall runs on Tuesdays, Wednesdays, Fridays, and Sundays only.
pub open spec fn spec_is_formal_day(d: CalendarDate) -> bool {
    ||| d.spec_weekday() == Weekday::Tuesday
    ||| d.spec_weekday() == Weekday::Wednesday
    ||| d.spec_weekday() == Weekday::Friday
    ||| d.spec_weekday() == Weekday::Sunday
}

pub fn is_formal_day(date: &CalendarDate) -> (r: bool)
    requires
        date.wf(),
    ensures
        r == spec_is_formal_day(*date),
{
    let w = date.weekday();
    matches!(w, Weekday::Tuesday | Weekday::Wednesday | Weekday::Friday | Weekday::Sunday)
}

pub open spec fn digit_char(v: int) -> char {
    if v == 0 {
        '0'
    } else if v == 1 {
        '1'
    } else if v == 2 {
        '2'
    } else if v == 3 {
        '3'
    } else if v == 4 {
        '4'
    } else if v == 5 {
        '5'
    } else if v == 6 {
        '6'
    } else if v == 7 {
        '7'
    } else if v == 8 {
        '8'
    } else {
        '9'
    }
}

pub open spec fn two_digits(v: int) -> Seq<char> {
    seq![digit_char(v / 10 % 10), digit_char(v % 10)]
}

pub open spec fn four_digits(v: int) -> Seq<char> {
    seq![
        digit_char(v / 1000 % 10),
        digit_char(v / 100 % 10),
        digit_char(v / 10 % 10),
        digit_char(v % 10),
    ]
}

/// The date written as `YYYY-MM-DD`, zero-padded.
pub open spec fn spec_iso_date(d: CalendarDate) -> Seq<char> {
    four_digits(d.year as int) + seq!['-'] + two_digits(d.month as int) + seq!['-'] + two_digits(
        d.day as int,
    )
}

fn digit_str(v: u32) -> (r: &'static str)
    requires
        v < 10,
    ensures
        r@ =~= seq![digit_char(v as int)],
{
    proof {
        reveal_strlit("0");
        reveal_strlit("1");
        reveal_strlit("2");
        reveal_strlit("3");
        reveal_strlit("4");
        reveal_strlit("5");
        reveal_strlit("6");
        reveal_strlit("7");
        reveal_strlit("8");
        reveal_strlit("9");
    }
    if v == 0 {
        "0"
    } else if v == 1 {
        "1"
    } else if v == 2 {
        "2"
    } else if v == 3 {
        "3"
    } else if v == 4 {
        "4"
    } else if v == 5 {
        "5"
    } else if v == 6 {
        "6"
    } else if v == 7 {
        "7"
    } else if v == 8 {
        "8"
    } else {
        "9"
    }
}

/// Renders the date as `YYYY-MM-DD`.
pub fn iso_date(d: &CalendarDate) -> (r: String)
    requires
        d.wf(),
    ensures
        r@ =~= spec_iso_date(*d),
{
    proof {
        reveal_strlit("-");
    }
    let mut s = String::new();
    s.append(digit_str(d.year / 1000 % 10));
    s.append(digit_str(d.year / 100 % 10));
    s.append(digit_str(d.year / 10 % 10));
    s.append(digit_str(d.year % 10));
    s.append("-");
    s.append(digit_str(d.month / 10 % 10));
    s.append(digit_str(d.month % 10));
    s.append("-");
    s.append(digit_str(d.day / 10 % 10));
    s.append(digit_str(d.day % 10));
    s
}

} // verus!
