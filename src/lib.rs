use vstd::prelude::*;

pub mod header;
pub mod results;
pub mod request;
pub mod response;
pub mod utils;
pub mod hyper_driver;
pub mod engines;

verus! {

/// Sent as `User-Agent` when a client sets none of its own.
pub const USER_AGENT: &'static str = "Reywen-HTTP/10.0 (async-tokio-runtime)";

} // verus!
