//! User data.
use vstd::prelude::*;

pub mod profile;

verus! {

} // verus!
