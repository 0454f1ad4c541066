//! URIs which deal with authorization.

use vstd::prelude::*;

verus! {

/// Some action failed because the peer is not authorized.
pub const not_authorized: &'static str = "wamp.error.not_authorized";

/// An attempt to determine if the peer is authorized failed.
pub const authorization_failed: &'static str = "wamp.error.authorization_failed";

/// The connected peer wanted to join a non-existant realm.
pub const no_such_realm: &'static str = "wamp.error.no_such_realm";

/// A peer tried to authenticate with a role that does not exist.
pub const no_such_role: &'static str = "wamp.error.no_such_role";

} // verus!
