//! Activity data.
use vstd::prelude::*;

pub mod time_series;

verus! {

} // verus!
