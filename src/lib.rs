//! A client for the Fitbit web API: the OAuth2 authorization-code token
//! lifecycle, and the rules for sending authenticated requests.
use vstd::prelude::*;

pub mod api;
pub mod cache;
pub mod credential;
pub mod error;
pub mod executor;
pub mod flow;
pub mod models;
pub mod store;
pub mod text;
pub mod util;

verus! {

} // verus!
