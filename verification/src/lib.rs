//! A WAMP client implementation, capable of taking the roles caller, callee, publisher, and
//! subscriber.
//!
//! It implements the WAMP basic profile, and *none* of the advanced profile.
//!
//! This crate is what a client decides and computes: the messages and their JSON form, the parsing
//! of received messages, the buffers that they wait in, the states of a client and of its
//! operations. It does no input or output and runs no tasks. Where something has to be done with a
//! transport, a machine says so and is told how it went; a task is known by a number, and a call
//! that concerns tasks names those that are to be notified.

#![allow(non_upper_case_globals)]

pub mod buffer;
pub mod client;
pub mod dict;
pub mod error;
pub mod id;
pub mod json;
pub mod pollable;
pub mod proto;
pub mod received;
pub mod transport;
pub mod uri;

pub use crate::buffer::{Errors, MessageBuffer};
pub use crate::client::{
    Broadcast, Client, ClientConfig, Registration, RpcArgs, RpcReturn, Subscription,
    SubscriptionStream,
};
pub use crate::dict::Dict;
pub use crate::error::WampError;
pub use crate::id::{GlobalScope, Id, RouterScope, SessionIdSource, SessionScope, MAX_ID_VAL};
pub use crate::uri::{known_uri, Uri};
