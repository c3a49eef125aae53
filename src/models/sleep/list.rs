//! A page of a user's sleep list.
use vstd::prelude::*;

verus! {

/// Where a page of the sleep list stands among the others.
#[derive(Debug, Clone)]
pub struct Pagination {
    pub before_date: Option<String>,
    pub after_date: Option<String>,
    pub limit: u64,
    pub next: String,
    pub offset: u64,
    pub previous: String,
    pub sort: String,
}

/// One sleep record.
#[derive(Debug, Clone)]
pub struct Sleep {
    pub date_of_sleep: String,
    pub duration_millis: u64,
    pub efficiency: u64,
    pub end_time: String,
    pub info_code: u64,
    pub is_main_sleep: bool,
    pub levels: Levels,
    pub log_id: u64,
    pub minutes_after_wakeup: u64,
    pub minutes_asleep: u64,
    pub minutes_awake: u64,
    pub minutes_to_fall_asleep: u64,
    pub start_time: String,
    pub time_in_bed: u64,
    pub type_: String,
}

/// The sleep stages of one record.
#[derive(Debug, Clone)]
pub struct Levels {
    pub summary: LevelSummary,
    pub data: Vec<SleepDataPoint>,
    pub short_data: Vec<SleepDataPoint>,
}

/// Totals for each sleep stage.
#[derive(Debug, Clone)]
pub struct LevelSummary {
    pub deep: Summary,
    pub light: Summary,
    pub rem: Summary,
    pub wake: Summary,
}

/// Totals for one sleep stage.
#[derive(Debug, Clone, Copy, PartialEq, Eq)]
pub struct Summary {
    pub count: u64,
    pub minutes: u64,
    pub thirty_day_avg_minutes: u64,
}

/// One stretch of time spent in a single sleep stage.
#[derive(Debug, Clone)]
pub struct SleepDataPoint {
    pub date_time: String,
    pub level: SleepLevel,
    pub seconds: u64,
}

/// A sleep stage.
#[derive(Debug, Clone, Copy, PartialEq, Eq)]
pub enum SleepLevel {
    Wake,
    Light,
    Rem,
    Deep,
}

} // verus!
