//! Heart rate time series requests.
use vstd::prelude::*;

verus! {

/// Possible period ranges for heart rate data.
#[derive(Debug, Clone, Copy, PartialEq, Eq)]
pub enum Period {
    OneDay,
    SevenDays,
    ThirtyDays,
    OneWeek,
    OneMonth,
}

/// The path segment that names a period.
pub open spec fn period_text(p: Period) -> Seq<char> {
    match p {
        Period::OneDay => "1d"@,
        Period::SevenDays => "7d"@,
        Period::ThirtyDays => "30d"@,
        Period::OneWeek => "1w"@,
        Period::OneMonth => "1m"@,
    }
}

impl Period {
    /// The path segment that the API uses for this period.
    pub fn to_string(&self) -> (r: String)
        ensures
            r@ == period_text(*self),
    {
        match self {
            Period::OneDay => String::from_str("1d"),
            Period::SevenDays => String::from_str("7d"),
            Period::ThirtyDays => String::from_str("30d"),
            Period::OneWeek => String::from_str("1w"),
            Period::OneMonth => String::from_str("1m"),
        }
    }
}

} // verus!
