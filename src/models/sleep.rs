//! Sleep data.
use vstd::prelude::*;

pub mod list;
pub mod logs;

verus! {

} // verus!
