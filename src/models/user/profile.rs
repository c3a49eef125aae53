//! The settings of a user profile.
use vstd::prelude::*;

verus! {

#[derive(Debug, Clone, Copy, PartialEq, Eq)]
pub enum ClockTimeDisplayFormat {
    Hours12,
    Hours24,
}

#[derive(Debug, Clone, Copy, PartialEq, Eq)]
pub enum DistanceUnit {
    FeetInches,
    Centimeters,
}

#[derive(Debug, Clone, Copy, PartialEq, Eq)]
pub enum Gender {
    Male,
    Female,
    NA,
}

#[derive(Debug, Clone, Copy, PartialEq, Eq)]
pub enum GlucoseUnit {
    Imperial,
    Metric,
}

#[derive(Debug, Clone, Copy, PartialEq, Eq)]
pub enum HeightUnit {
    Imperial,
    Metric,
}

#[derive(Debug, Clone, Copy, PartialEq, Eq)]
pub enum StartDayOfTheWeek {
    Sunday,
    Monday,
}

#[derive(Debug, Clone, Copy, PartialEq, Eq)]
pub enum SwimUnit {
    Yards,
    Meters,
}

#[derive(Debug, Clone, Copy, PartialEq, Eq)]
pub enum WaterUnit {
    FluidOuncesOrCups,
    Milliliters,
}

#[derive(Debug, Clone, Copy, PartialEq, Eq)]
pub enum WeightUnit {
    Pounds,
    Stone,
    Kilograms,
}

} // verus!
