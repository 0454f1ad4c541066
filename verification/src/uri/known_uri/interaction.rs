//! URIs which deal with receiving invalid URIs.

use vstd::prelude::*;

verus! {

/// Used when a peer provides an invalid URI.
pub const invalid_uri: &'static str = "wamp.error.invalid_uri";

/// Used when an RPC is invoked which doesn't exist.
pub const no_such_procedure: &'static str = "wamp.error.no_such_procedure";

/// Used when a callee tries to register an RPC which is already registered.
pub const procedure_already_exists: &'static str = "wamp.error.procedure_already_exists";

/// Used when a callee tries to unregister an RPC which isn't registered.
pub const no_such_registration: &'static str = "wamp.error.no_such_registration";

/// Used when a subscriber tries to unsubscribe from a topic that they aren't subscribed to.
pub const no_such_subscription: &'static str = "wamp.error.no_such_subscription";

/// A caller invoked an RPC with arguments that are invalid.
pub const invalid_argument: &'static str = "wamp.error.invalid_argument";

} // verus!
