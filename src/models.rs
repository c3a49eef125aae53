//! Shapes of the data that the API's endpoints return.
use vstd::prelude::*;

pub mod activity;
pub mod devices;
pub mod heart_rate;
pub mod sleep;
pub mod user;

verus! {

} // verus!
