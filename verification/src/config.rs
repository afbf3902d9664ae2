//! Build-time configuration of the proxy.
use vstd::prelude::*;

verus! {

/// The hostname the proxy answers for.
pub const FRONT_HOST: &'static str = "slow-server.akshive.test";

/// The authority of the origin the proxy forwards to.
pub const ORIGIN_AUTHORITY: &'static str = "www.google.com";

} // verus!
