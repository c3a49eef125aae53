//! Activity time series data.
use vstd::prelude::*;

verus! {

/// The resource that an activity time series reports on.
#[derive(Debug, Clone, Copy, PartialEq, Eq)]
pub enum Resource {
    Calories,
    CaloriesBMR,
    Steps,
    Distance,
    Floors,
    Elevation,
    Sedentary,
    LightlyActive,
    FairlyActive,
    VeryActive,
    ActivityCalories,
}

} // verus!
