//! The URIs known to WAMP.

use vstd::prelude::*;

pub mod authorization;
pub mod interaction;
pub mod session_close;

verus! {

/// Used when a peer commits a protocol violation.
pub const protocol_violation: &'static str = "wamp.error.protocol_violation";

} // verus!
