//! Raw message codes for each message type.

use vstd::prelude::*;

verus! {

/// The code of HELLO messages.
pub const HELLO: u64 = 1;

/// The code of WELCOME messages.
pub const WELCOME: u64 = 2;

/// The code of ABORT messages.
pub const ABORT: u64 = 3;

/// The code of GOODBYE messages.
pub const GOODBYE: u64 = 6;

/// The code of ERROR messages.
pub const ERROR: u64 = 8;

/// The code of PUBLISH messages.
pub const PUBLISH: u64 = 16;

/// The code of PUBLISHED messages.
pub const PUBLISHED: u64 = 17;

/// The code of SUBSCRIBE messages.
pub const SUBSCRIBE: u64 = 32;

/// The code of SUBSCRIBED messages.
pub const SUBSCRIBED: u64 = 33;

/// The code of UNSUBSCRIBE messages.
pub const UNSUBSCRIBE: u64 = 34;

/// The code of UNSUBSCRIBED messages.
pub const UNSUBSCRIBED: u64 = 35;

/// The code of EVENT messages.
pub const EVENT: u64 = 36;

/// The code of CALL messages.
pub const CALL: u64 = 48;

/// The code of RESULT messages.
pub const RESULT: u64 = 50;

/// The code of REGISTER messages.
pub const REGISTER: u64 = 64;

/// The code of REGISTERED messages.
pub const REGISTERED: u64 = 65;

/// The code of UNREGISTER messages.
pub const UNREGISTER: u64 = 66;

/// The code of UNREGISTERED messages.
pub const UNREGISTERED: u64 = 67;

/// The code of INVOCATION messages.
pub const INVOCATION: u64 = 68;

/// The code of YIELD messages.
pub const YIELD: u64 = 70;

} // verus!
