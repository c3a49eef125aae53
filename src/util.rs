//! Calendar dates as the API writes them.
use vstd::prelude::*;
use crate::text::{digit, digit_char, push_char};

verus! {

/// A day of the proleptic Gregorian calendar, in the years 0 to 9999.
#[derive(Debug, Clone, Copy, PartialEq, Eq)]
pub struct Date {
    pub year: u16,
    pub month: u8,
    pub day: u8,
}

impl Date {
    pub open spec fn wf(&self) -> bool {
        self.year <= 9999 && 1 <= self.month <= 12 && 1 <= self.day <= 31
    }
}

/// `YYYY-MM-DD`, with leading zeros.
pub open spec fn iso_date(d: Date) -> Seq<char> {
    seq![
        digit_char((d.year / 1000) as nat),
        digit_char((d.year / 100 % 10) as nat),
        digit_char((d.year / 10 % 10) as nat),
        digit_char((d.year % 10) as nat),
        '-',
        digit_char((d.month / 10) as nat),
        digit_char((d.month % 10) as nat),
        '-',
        digit_char((d.day / 10) as nat),
        digit_char((d.day % 10) as nat),
    ]
}

/// The path segment for a date: the date as `YYYY-MM-DD`, or `today`.
pub fn date_or_today(date: Option<Date>) -> (r: String)
    requires
        date matches Some(d) ==> d.wf(),
    ensures
        r@ == match date {
            Some(d) => iso_date(d),
            None => "today"@,
        },
{
    match date {
        None => String::from_str("today"),
        Some(d) => {
            let y = d.year as u64;
            let m = d.month as u64;
            let day = d.day as u64;
            let mut r = String::new();
            push_char(&mut r, digit(y / 1000));
            push_char(&mut r, digit(y / 100 % 10));
            push_char(&mut r, digit(y / 10 % 10));
            push_char(&mut r, digit(y % 10));
            push_char(&mut r, '-');
            push_char(&mut r, digit(m / 10));
            push_char(&mut r, digit(m % 10));
            push_char(&mut r, '-');
            push_char(&mut r, digit(day / 10));
            push_char(&mut r, digit(day % 10));
            assert(r@ =~= iso_date(d));
            r
        },
    }
}

} // verus!
