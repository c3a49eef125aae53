//! A user's paired devices.
use vstd::prelude::*;

verus! {

/// Rough battery level indication.
#[derive(Debug, Clone, Copy, PartialEq, Eq, PartialOrd, Ord)]
pub enum BatteryLevel {
    Empty,
    Low,
    Medium,
    High,
}

/// Used to separate different product categories.
#[derive(Debug, Clone, Copy, PartialEq, Eq)]
pub enum DeviceType {
    /// Something you wear on your wrist.
    Tracker,
    /// A smart scale.
    Scale,
}

/// A Fitbit product.
#[derive(Debug, Clone, Copy, PartialEq, Eq)]
#[non_exhaustive]
pub enum Device {
    Aria,
    Charge2,
    Charge3,
    Charge4,
    Charge5,
    ChargeHr,
    Ionic,
    MobileTrack,
    Surge,
    Versa,
}

} // verus!
