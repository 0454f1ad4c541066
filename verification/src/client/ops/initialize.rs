//! Joining a realm.

use vstd::prelude::*;

use crate::buffer::{BufferModel, MessageBuffer};
use crate::client::task_tracker::{ClientTaskTracker, TrackerModel};
use crate::client::{Client, ClientState};
use crate::error::{WampError, WampErrorModel};
use crate::pollable::{Poll, PollableValue, PollableValueModel};
use crate::proto::{empty_dict, Dict, TxMessage, TxModel};
use crate::transport::{TransportableValue as TV, TvModel};
use crate::uri::Uri;

verus! {

/// What HELLO messages are called in errors.
pub const MESSAGE_TYPE: &'static str = "HELLO";

/// The roles that this client takes, each with no details.
pub open spec fn client_roles() -> Map<Seq<char>, TvModel> {
    Map::empty().insert("caller"@, TvModel::Dict(Map::empty())).insert(
        "callee"@,
        TvModel::Dict(Map::empty()),
    ).insert("subscriber"@, TvModel::Dict(Map::empty())).insert(
        "publisher"@,
        TvModel::Dict(Map::empty()),
    )
}

/// The details of a HELLO message, in which we describe our own capabilities to the router: the
/// roles, and the user-agent string if there is one.
pub open spec fn hello_details(user_agent: Option<Seq<char>>) -> Map<Seq<char>, TvModel> {
    let details = Map::empty().insert("roles"@, TvModel::Dict(client_roles()));
    match user_agent {
        Some(agent) => details.insert("agent"@, TvModel::Str(agent)),
        None => details,
    }
}

fn insert(dict: &mut Dict, key: &str, value: TV)
    ensures
        crate::transport::dict_model(*final(dict)) == crate::transport::dict_model(
            *old(dict),
        ).insert(key@, value@),
{
    dict.insert(key.to_owned(), value);
    proof {
        crate::transport::lemma_dict_model_insert(*old(dict), *dict, key@, value);
    }
}

/// The HELLO message by which a client joins a realm.
pub fn hello(realm: Uri, user_agent: Option<String>) -> (message: TxMessage)
    ensures
        message@ == (TxModel::Hello {
            realm: realm@,
            details: hello_details(
                match user_agent {
                    Some(agent) => Some(agent@),
                    None => None,
                },
            ),
        }),
{
    let mut roles = empty_dict();
    insert(&mut roles, "caller", TV::Dict(empty_dict()));
    insert(&mut roles, "callee", TV::Dict(empty_dict()));
    insert(&mut roles, "subscriber", TV::Dict(empty_dict()));
    insert(&mut roles, "publisher", TV::Dict(empty_dict()));
    let mut details = empty_dict();
    insert(&mut details, "roles", TV::Dict(roles));
    if let Some(agent) = user_agent {
        insert(&mut details, "agent", TV::String(agent));
    }
    TxMessage::Hello { realm, details }
}

/// Sets a client up after its HELLO message has been sent, or failed to be. The client is not
/// established before a WELCOME message comes; `stop_sender` is the signal by which its message
/// listener is stopped.
pub fn initialize(
    hello_sent: Result<(), String>,
    stop_sender: u64,
    panic_on_drop_while_open: bool,
) -> (result: Result<Client, WampError>)
    ensures
        match hello_sent {
            Ok(()) => {
                &&& result matches Ok(client)
                &&& client.received@ == BufferModel::empty()
                &&& client.state@ == (PollableValueModel {
                    val: ClientState::Establishing,
                    waiting: Seq::empty(),
                })
                &&& client.task_tracker@ == (TrackerModel {
                    msg_listener: Some(stop_sender),
                    subscriptions: Seq::empty(),
                })
                &&& client.panic_on_drop_while_open == panic_on_drop_while_open
            },
            Err(reason) => {
                &&& result matches Err(error)
                &&& error@ == (WampErrorModel::MessageSendFailed {
                    message_type: MESSAGE_TYPE@,
                    error: reason@,
                })
            },
        },
{
    match hello_sent {
        Ok(()) => Ok(
            Client {
                received: MessageBuffer::default(),
                state: PollableValue::new(ClientState::Establishing),
                task_tracker: ClientTaskTracker::new(stop_sender),
                panic_on_drop_while_open,
            },
        ),
        Err(error) => Err(WampError::MessageSendFailed { message_type: MESSAGE_TYPE, error }),
    }
}

/// Waits for the message listener to set the client state to "Established".
pub fn poll_established(state: &mut PollableValue<ClientState>, task: u64) -> (polled: Poll<()>)
    ensures
        polled == (if old(state)@.val is Established {
            Poll::Ready(())
        } else {
            Poll::Pending
        }),
        final(state)@ == (PollableValueModel {
            val: old(state)@.val,
            waiting: crate::pollable::registered(old(state)@.waiting, task),
        }),
{
    if state.read(Some(task)).is_established() {
        Poll::Ready(())
    } else {
        Poll::Pending
    }
}

} // verus!
