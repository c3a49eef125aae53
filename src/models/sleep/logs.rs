//! A user's sleep logs.
use vstd::prelude::*;

verus! {

/// A sleep entry for a particular day. There can be several per day.
#[derive(Debug, Clone, Copy, PartialEq, Eq)]
pub struct SleepEntry {}

/// A sleep summary.
#[derive(Debug, Clone, Copy, PartialEq, Eq)]
pub struct Summary {
    pub total_minutes_asleep: usize,
    pub total_sleep_records: usize,
    pub total_time_in_bed: usize,
}

} // verus!
