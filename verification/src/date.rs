//! Calendar dates of releases and posts, their order, and their
//! `YYYY-MM-DD` rendering.

use vstd::prelude::*;

use crate::text::owned;

verus! {

/// A calendar date in the proleptic Gregorian calendar.
#[derive(Copy, Clone, Debug, Hash, PartialEq, Eq, PartialOrd, Ord, Structural)]
pub struct Date {
    pub year: i32,
    pub month: u8,
    pub day: u8,
}

/// Whether `year` is a leap year.
pub open spec fn is_leap_year(year: int) -> bool {
    (year % 4 == 0 && year % 100 != 0) || year % 400 == 0
}

/// The number of days of `month` in `year`.
pub open spec fn days_in_month(year: int, month: int) -> int {
    if month == 2 {
        if is_leap_year(year) {
            29
        } else {
            28
        }
    } else if month == 4 || month == 6 || month == 9 || month == 11 {
        30
    } else {
        31
    }
}

/// The decimal digits of `n` as text.
pub open spec fn decimal_text(n: nat) -> Seq<char>
    decreases n,
{
    if n < 10 {
        seq![digit_char(n)]
    } else {
        decimal_text(n / 10).push(digit_char(n % 10))
    }
}

/// The character of a decimal digit.
pub open spec fn digit_char(d: nat) -> char {
    if d == 0 {
        '0'
    } else if d == 1 {
        '1'
    } else if d == 2 {
        '2'
    } else if d == 3 {
        '3'
    } else if d == 4 {
        '4'
    } else if d == 5 {
        '5'
    } else if d == 6 {
        '6'
    } else if d == 7 {
        '7'
    } else if d == 8 {
        '8'
    } else {
        '9'
    }
}

/// `digits` padded with zeros on the left to at least `width` characters.
pub open spec fn zero_padded(digits: Seq<char>, width: nat) -> Seq<char>
    decreases width,
{
    if digits.len() >= width {
        digits
    } else {
        seq!['0'] + zero_padded(digits, (width - 1) as nat)
    }
}

/// The `YYYY-MM-DD` text of a date: the year with a minus sign when negative
/// and at least four digits, then two-digit month and day.
pub open spec fn date_text(d: Date) -> Seq<char> {
    (if d.year < 0 {
        seq!['-']
    } else {
        Seq::empty()
    }) + zero_padded(decimal_text(if d.year < 0 { (-d.year) as nat } else { d.year as nat }), 4) + seq!['-']
        + zero_padded(decimal_text(d.month as nat), 2) + seq!['-'] + zero_padded(
        decimal_text(d.day as nat),
        2,
    )
}

/// Whether `a` comes strictly before `b` in time.
pub open spec fn date_before(a: Date, b: Date) -> bool {
    a.year < b.year || (a.year == b.year && (a.month < b.month || (a.month == b.month && a.day
        < b.day)))
}

impl Date {
    /// Whether the fields name a real day within years -9999 to 9999.
    pub open spec fn wf(self) -> bool {
        &&& -9999 <= self.year <= 9999
        &&& 1 <= self.month <= 12
        &&& 1 <= self.day <= days_in_month(self.year as int, self.month as int)
    }

    /// The date with the given fields, when they name a real day within
    /// years -9999 to 9999.
    pub fn from_calendar_date(year: i32, month: u8, day: u8) -> (r: Option<Date>)
        ensures
            match r {
                Some(d) => d.wf() && d.year == year && d.month == month && d.day == day,
                None => !(Date { year, month, day }).wf(),
            },
    {
        if year < -9999 || year > 9999 || month < 1 || month > 12 || day < 1 {
            return None;
        }
        let leap = (year % 4 == 0 && year % 100 != 0) || year % 400 == 0;
        let limit: u8 = if month == 2 {
            if leap {
                29
            } else {
                28
            }
        } else if month == 4 || month == 6 || month == 9 || month == 11 {
            30
        } else {
            31
        };
        assert(leap == is_leap_year(year as int));
        if day > limit {
            return None;
        }
        Some(Date { year, month, day })
    }

    /// Whether this date comes strictly before `other`.
    pub fn is_before(&self, other: &Date) -> (r: bool)
        ensures
            r == date_before(*self, *other),
    {
        self.year < other.year || (self.year == other.year && (self.month < other.month || (
        self.month == other.month && self.day < other.day)))
    }
}

/// Appends a character (`String::push`).
#[verifier::external_body]
pub(crate) fn push_char(s: &mut String, c: char)
    ensures
        final(s)@ == old(s)@.push(c),
{
    s.push(c)
}

fn digit(d: u64) -> (c: char)
    requires
        d < 10,
    ensures
        c == digit_char(d as nat),
{
    if d == 0 {
        '0'
    } else if d == 1 {
        '1'
    } else if d == 2 {
        '2'
    } else if d == 3 {
        '3'
    } else if d == 4 {
        '4'
    } else if d == 5 {
        '5'
    } else if d == 6 {
        '6'
    } else if d == 7 {
        '7'
    } else if d == 8 {
        '8'
    } else {
        '9'
    }
}

/// Appends the decimal digits of `n`.
pub(crate) fn push_decimal(out: &mut String, n: u64)
    ensures
        final(out)@ == old(out)@ + decimal_text(n as nat),
    decreases n,
{
    if n < 10 {
        push_char(out, digit(n));
    } else {
        push_decimal(out, n / 10);
        push_char(out, digit(n % 10));
        assert(decimal_text(n as nat) == decimal_text((n / 10) as nat).push(digit_char((n % 10) as nat)));
    }
}

proof fn lemma_decimal_len(n: nat)
    ensures
        1 <= decimal_text(n).len(),
        n < 10 ==> decimal_text(n).len() == 1,
        10 <= n < 100 ==> decimal_text(n).len() == 2,
        100 <= n < 1000 ==> decimal_text(n).len() == 3,
        1000 <= n < 10000 ==> decimal_text(n).len() == 4,
    decreases n,
{
    if n >= 10 {
        lemma_decimal_len(n / 10);
    }
}

fn push_padded(out: &mut String, n: u32, width: usize)
    requires
        width <= 4,
        n < 10000,
    ensures
        final(out)@ == old(out)@ + zero_padded(decimal_text(n as nat), width as nat),
{
    proof {
        lemma_decimal_len(n as nat);
    }
    let len: usize = if n < 10 {
        1
    } else if n < 100 {
        2
    } else if n < 1000 {
        3
    } else {
        4
    };
    let mut pad: usize = if len < width {
        width - len
    } else {
        0
    };
    let ghost start = out@;
    let ghost digits = decimal_text(n as nat);
    proof {
        assert(digits.len() == len);
    }
    while pad > 0
        invariant
            digits == decimal_text(n as nat),
            digits.len() == len,
            pad <= width,
            len + pad <= width || pad == 0,
            len < width ==> len + pad <= width,
            zero_padded(digits, width as nat) == out@.subrange(start.len() as int, out@.len() as int)
                + zero_padded(digits, (len + pad) as nat),
            start.is_prefix_of(out@),
        decreases pad,
    {
        assert(zero_padded(digits, (len + pad) as nat) == seq!['0'] + zero_padded(
            digits,
            (len + pad - 1) as nat,
        ));
        let ghost before = out@;
        push_char(out, '0');
        assert(out@.subrange(start.len() as int, out@.len() as int) =~= before.subrange(
            start.len() as int,
            before.len() as int,
        ) + seq!['0']);
        pad = pad - 1;
    }
    assert(zero_padded(digits, len as nat) == digits);
    push_decimal(out, n as u64);
    assert(out@ =~= start + zero_padded(digits, width as nat));
}

/// Renders a date as `YYYY-MM-DD`.
pub fn format_date(date: Date) -> (r: String)
    requires
        date.wf(),
    ensures
        r@ == date_text(date),
{
    let mut out = owned("");
    proof {
        reveal_strlit("");
    }
    let ghost empty = out@;
    assert(empty == Seq::<char>::empty());
    let year_abs: u32 = if date.year < 0 {
        push_char(&mut out, '-');
        (0 - date.year) as u32
    } else {
        date.year as u32
    };
    push_padded(&mut out, year_abs, 4);
    push_char(&mut out, '-');
    push_padded(&mut out, date.month as u32, 2);
    push_char(&mut out, '-');
    push_padded(&mut out, date.day as u32, 2);
    assert(out@ =~= date_text(date));
    out
}

} // verus!
