//! Wall-clock sampling and the clock's two text forms.
//!
//! A sample is the local time broken into plain fields.  The time renders as
//! `HH:MM` (24-hour, zero-padded) and the date as `DD.MM.YYYY` (zero-padded
//! day and month, year zero-padded to four digits).

use vstd::prelude::*;
use chrono::Datelike;
use chrono::Timelike;
use crate::text::chars_to_string;

verus! {

/// One reading of the local wall clock.
pub struct ClockSample {
    pub hour: u32,
    pub minute: u32,
    pub day: u32,
    pub month: u32,
    pub year: i32,
}

impl ClockSample {
    /// The ranges the clock accessors promise.
    pub open spec fn wf(&self) -> bool {
        &&& self.hour < 24
        &&& self.minute < 60
        &&& 1 <= self.day <= 31
        &&& 1 <= self.month <= 12
    }
}

/// Relies on `chrono::Local::now` and the `Timelike`/`Datelike` accessors:
/// the hour is 0 to 23, the minute 0 to 59, the day of month 1 to 31 and the
/// month 1 to 12.
#[verifier::external_body]
pub(crate) fn sample_local_clock() -> (s: ClockSample)
    ensures
        s.wf(),
{
    let now = chrono::Local::now();
    ClockSample {
        hour: now.hour(),
        minute: now.minute(),
        day: now.day(),
        month: now.month(),
        year: now.year(),
    }
}

/// The decimal digit character for `d`.
pub open spec fn digit_char(d: int) -> char {
    if d == 0 {
        '0'
    } else if d == 1 {
        '1'
    } else if d == 2 {
        '2'
    } else if d == 3 {
        '3'
    } else if d == 4 {
        '4'
    } else if d == 5 {
        '5'
    } else if d == 6 {
        '6'
    } else if d == 7 {
        '7'
    } else if d == 8 {
        '8'
    } else {
        '9'
    }
}

/// Two-digit zero-padded decimal form of `n`, for `0 <= n < 100`.
pub open spec fn two_digits(n: int) -> Seq<char> {
    seq![digit_char(n / 10), digit_char(n % 10)]
}

/// Plain decimal digits of `n >= 0`, most significant first.
pub open spec fn dec_digits(n: int) -> Seq<char>
    decreases n,
{
    if n < 10 {
        seq![digit_char(n)]
    } else {
        dec_digits(n / 10).push(digit_char(n % 10))
    }
}

/// The year's text: its decimal digits zero-padded to at least four, with a
/// leading minus sign for a year before year zero.
pub open spec fn year_digits(y: int) -> Seq<char> {
    let m = if y < 0 {
        -y
    } else {
        y
    };
    let body = if m < 10 {
        seq!['0', '0', '0'] + dec_digits(m)
    } else if m < 100 {
        seq!['0', '0'] + dec_digits(m)
    } else if m < 1000 {
        seq!['0'] + dec_digits(m)
    } else {
        dec_digits(m)
    };
    if y < 0 {
        seq!['-'] + body
    } else {
        body
    }
}

/// The clock's time text `HH:MM`.
pub open spec fn spec_time_chars(hour: int, minute: int) -> Seq<char> {
    two_digits(hour) + seq![':'] + two_digits(minute)
}

/// The clock's date text `DD.MM.YYYY`.
pub open spec fn spec_date_chars(day: int, month: int, year: int) -> Seq<char> {
    two_digits(day) + seq!['.'] + two_digits(month) + seq!['.'] + year_digits(year)
}

/// The digit character for `d < 10`.
fn digit_char_of(d: u32) -> (c: char)
    requires
        d < 10,
    ensures
        c == digit_char(d as int),
{
    if d == 0 {
        '0'
    } else if d == 1 {
        '1'
    } else if d == 2 {
        '2'
    } else if d == 3 {
        '3'
    } else if d == 4 {
        '4'
    } else if d == 5 {
        '5'
    } else if d == 6 {
        '6'
    } else if d == 7 {
        '7'
    } else if d == 8 {
        '8'
    } else {
        '9'
    }
}

/// Appends the two-digit form of `n`.
fn push_two_digits(n: u32, out: &mut Vec<char>)
    requires
        n < 100,
    ensures
        final(out)@ == old(out)@ + two_digits(n as int),
{
    out.push(digit_char_of(n / 10));
    out.push(digit_char_of(n % 10));
    assert(out@ =~= old(out)@ + two_digits(n as int));
}

/// Appends the plain decimal digits of `n`.
fn push_dec(n: u32, out: &mut Vec<char>)
    ensures
        final(out)@ == old(out)@ + dec_digits(n as int),
    decreases n,
{
    if n < 10 {
        out.push(digit_char_of(n));
        assert(out@ =~= old(out)@ + dec_digits(n as int));
    } else {
        push_dec(n / 10, out);
        out.push(digit_char_of(n % 10));
        assert(out@ =~= old(out)@ + dec_digits(n as int));
    }
}

/// The time text `HH:MM` for a sampled hour and minute.
pub fn time_text(hour: u32, minute: u32) -> (s: String)
    requires
        hour < 24,
        minute < 60,
    ensures
        s@ == spec_time_chars(hour as int, minute as int),
{
    let mut out: Vec<char> = Vec::new();
    push_two_digits(hour, &mut out);
    out.push(':');
    push_two_digits(minute, &mut out);
    assert(out@ =~= spec_time_chars(hour as int, minute as int));
    chars_to_string(&out)
}

/// The date text `DD.MM.YYYY` for a sampled day, month and year.
pub fn date_text(day: u32, month: u32, year: i32) -> (s: String)
    requires
        1 <= day <= 31,
        1 <= month <= 12,
    ensures
        s@ == spec_date_chars(day as int, month as int, year as int),
{
    let mut out: Vec<char> = Vec::new();
    push_two_digits(day, &mut out);
    out.push('.');
    push_two_digits(month, &mut out);
    out.push('.');
    if year < 0 {
        out.push('-');
    }
    let mag: u32 = if year < 0 {
        assert(-(year as i64) <= 0x8000_0000i64);
        (-(year as i64)) as u32
    } else {
        year as u32
    };
    assert(mag as int == if year < 0 {
        -(year as int)
    } else {
        year as int
    });
    if mag < 10 {
        out.push('0');
        out.push('0');
        out.push('0');
    } else if mag < 100 {
        out.push('0');
        out.push('0');
    } else if mag < 1000 {
        out.push('0');
    }
    push_dec(mag, &mut out);
    assert(out@ =~= spec_date_chars(day as int, month as int, year as int));
    chars_to_string(&out)
}

} // verus!
