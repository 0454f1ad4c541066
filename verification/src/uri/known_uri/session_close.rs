//! URIs which deal with closing sessions.

use vstd::prelude::*;

verus! {

/// The connected peer is shutting down entirely.
pub const system_shutdown: &'static str = "wamp.error.system_shutdown";

/// The connected peer wants to leave the realm it's connected to.
pub const close_realm: &'static str = "wamp.error.close_realm";

/// The connected peer is acknowledging a GOODBYE message.
pub const goodbye_and_out: &'static str = "wamp.error.goodbye_and_out";

/// The connected peer received an invalid protocol message.
pub const protocol_violation: &'static str = "wamp.error.protocol_violation";

} // verus!
