//! What the message listener makes of what it hears.

use vstd::prelude::*;

use crate::buffer::{BufferModel, ErrorsModel};
use crate::client::message_listener::{
    ActionModel, ListenerAction, ProcessMessageResult, Processed,
};
use crate::client::ClientState;
use crate::pollable::PollableSetModel;
use crate::proto::rx::RxMessage;
use crate::transport::TransportError;

verus! {

/// Nothing is buffered and nobody is notified: all there is is the result.
pub open spec fn only(processed: Processed, result: ProcessMessageResult, buffer: BufferModel) -> bool {
    &&& processed.result == result
    &&& processed.buffer == buffer
    &&& processed.woken.len() == 0
}

/// An item has come behind the others, and everyone who waited for one is notified and waits no
/// longer.
pub open spec fn joined<T>(
    processed: Processed,
    before: PollableSetModel<T>,
    after: PollableSetModel<T>,
    item: T,
) -> bool {
    &&& processed.result is Continue
    &&& processed.woken == before.waiting
    &&& after.waiting.len() == 0
    &&& after.items.len() == before.items.len() + 1
    &&& after.items.drop_last() == before.items
    &&& after.items.last() == item
}

/// A set has got an item: it is the last one, and those before it are the ones that were there.
pub proof fn lemma_inserted_comes_last<T>(set: PollableSetModel<T>, item: T)
    ensures
        set.inserted(item).items.len() == set.items.len() + 1,
        set.inserted(item).items.drop_last() == set.items,
        set.inserted(item).items.last() == item,
        set.inserted(item).waiting.len() == 0,
{
    assert(set.inserted(item).items.drop_last() =~= set.items);
}

/// In an established session a reply or an invocation joins those of its kind, which wait for
/// whoever asked, and nothing else changes but that a subscription gets a queue.
pub proof fn lemma_heard_in_session(message: RxMessage, buffer: BufferModel, state: ClientState)
    requires
        state is Established,
    ensures
        ({
            let processed = crate::client::message_listener::processed(message, buffer, state);
            let after = processed.buffer;
            match message {
                RxMessage::Welcome(_) => only(
                    processed,
                    ProcessMessageResult::ProtocolError,
                    buffer,
                ),
                RxMessage::Abort(_) => only(processed, ProcessMessageResult::Abort, buffer),
                RxMessage::Goodbye(_) => only(processed, ProcessMessageResult::Goodbye, buffer),
                RxMessage::Published(item) => {
                    &&& joined(processed, buffer.published, after.published, item)
                    &&& after == (BufferModel { published: after.published, ..buffer })
                },
                RxMessage::Subscribed(item) => {
                    &&& joined(processed, buffer.subscribed, after.subscribed, item)
                    &&& after == (BufferModel {
                        subscribed: after.subscribed,
                        event: after.event,
                        ..buffer
                    })
                    &&& after.event.dom() == buffer.event.dom().insert(item.subscription@)
                    &&& forall|id: u64| #[trigger]
                        buffer.event.contains_key(id) ==> after.event[id] == buffer.event[id]
                    &&& !buffer.event.contains_key(item.subscription@)
                        ==> after.event[item.subscription@].items.len() == 0
                        && after.event[item.subscription@].waiting.len() == 0
                },
                RxMessage::Unsubscribed(item) => {
                    &&& joined(processed, buffer.unsubscribed, after.unsubscribed, item)
                    &&& after == (BufferModel { unsubscribed: after.unsubscribed, ..buffer })
                },
                RxMessage::Registered(item) => {
                    &&& joined(processed, buffer.registered, after.registered, item)
                    &&& after == (BufferModel { registered: after.registered, ..buffer })
                },
                RxMessage::Unregistered(item) => {
                    &&& joined(processed, buffer.unregistered, after.unregistered, item)
                    &&& after == (BufferModel { unregistered: after.unregistered, ..buffer })
                },
                RxMessage::Invocation(item) => {
                    &&& joined(processed, buffer.invocation, after.invocation, item)
                    &&& after == (BufferModel { invocation: after.invocation, ..buffer })
                },
                RxMessage::Result(item) => {
                    &&& joined(processed, buffer.result, after.result, item)
                    &&& after == (BufferModel { result: after.result, ..buffer })
                },
                RxMessage::Event(item) => {
                    let id = item.subscription@;
                    if buffer.event.contains_key(id) {
                        &&& joined(processed, buffer.event[id], after.event[id], item)
                        &&& after == (BufferModel { event: after.event, ..buffer })
                        &&& after.event.dom() == buffer.event.dom()
                        &&& forall|other: u64| #[trigger]
                            buffer.event.contains_key(other) && other != id
                                ==> after.event[other] == buffer.event[other]
                    } else {
                        only(processed, ProcessMessageResult::ProtocolError, buffer)
                    }
                },
                RxMessage::Error(_) => true,
            }
        }),
{
    let after = crate::client::message_listener::processed(message, buffer, state).buffer;
    match message {
        RxMessage::Published(item) => {
            lemma_inserted_comes_last(buffer.published, item);
        },
        RxMessage::Subscribed(item) => {
            lemma_inserted_comes_last(buffer.subscribed, item);
            assert(after.event.dom() =~= buffer.event.dom().insert(item.subscription@));
        },
        RxMessage::Unsubscribed(item) => {
            lemma_inserted_comes_last(buffer.unsubscribed, item);
        },
        RxMessage::Registered(item) => {
            lemma_inserted_comes_last(buffer.registered, item);
        },
        RxMessage::Unregistered(item) => {
            lemma_inserted_comes_last(buffer.unregistered, item);
        },
        RxMessage::Invocation(item) => {
            lemma_inserted_comes_last(buffer.invocation, item);
        },
        RxMessage::Result(item) => {
            lemma_inserted_comes_last(buffer.result, item);
        },
        RxMessage::Event(item) => {
            if buffer.event.contains_key(item.subscription@) {
                lemma_inserted_comes_last(buffer.event[item.subscription@], item);
                assert(after.event.dom() =~= buffer.event.dom());
            }
        },
        _ => {},
    }
}

/// In an established session an ERROR message joins the errors of the type of request that it names,
/// and nothing else changes. One that names no type of request that a client makes is a violation
/// of the protocol.
pub proof fn lemma_error_heard_in_session(
    error: crate::proto::rx::Error,
    buffer: BufferModel,
    state: ClientState,
)
    requires
        state is Established,
    ensures
        ({
            let processed = crate::client::message_listener::processed(
                RxMessage::Error(error),
                buffer,
                state,
            );
            let before = buffer.errors;
            let after = processed.buffer.errors;
            let kind = error.request_type;
            &&& kind != 32 && kind != 34 && kind != 16 && kind != 64 && kind != 66 && kind != 48
                ==> only(processed, ProcessMessageResult::ProtocolError, buffer)
            &&& kind == 32 ==> joined(processed, before.subscribe, after.subscribe, error) && after
                == (ErrorsModel { subscribe: after.subscribe, ..before })
            &&& kind == 34 ==> joined(processed, before.unsubscribe, after.unsubscribe, error)
                && after == (ErrorsModel { unsubscribe: after.unsubscribe, ..before })
            &&& kind == 16 ==> joined(processed, before.publish, after.publish, error) && after == (
            ErrorsModel { publish: after.publish, ..before })
            &&& kind == 64 ==> joined(processed, before.register, after.register, error) && after
                == (ErrorsModel { register: after.register, ..before })
            &&& kind == 66 ==> joined(processed, before.unregister, after.unregister, error)
                && after == (ErrorsModel { unregister: after.unregister, ..before })
            &&& kind == 48 ==> joined(processed, before.call, after.call, error) && after == (
            ErrorsModel { call: after.call, ..before })
            &&& processed.buffer == (BufferModel { errors: after, ..buffer })
        }),
{
    lemma_inserted_comes_last(buffer.errors.subscribe, error);
    lemma_inserted_comes_last(buffer.errors.unsubscribe, error);
    lemma_inserted_comes_last(buffer.errors.publish, error);
    lemma_inserted_comes_last(buffer.errors.register, error);
    lemma_inserted_comes_last(buffer.errors.unregister, error);
    lemma_inserted_comes_last(buffer.errors.call, error);
}

/// Without a session, and while the client is not shutting down, WELCOME establishes one, with the
/// ID and the capabilities that the router tells of; ABORT ends the connection; everything else is a
/// violation of the protocol. Nothing is buffered.
pub proof fn lemma_heard_without_session(
    message: RxMessage,
    buffer: BufferModel,
    state: ClientState,
)
    requires
        !(state is Established),
        !(state is ShuttingDown),
    ensures
        ({
            let processed = crate::client::message_listener::processed(message, buffer, state);
            match message {
                RxMessage::Welcome(welcome) => {
                    &&& processed.result matches ProcessMessageResult::Welcome {
                        session_id,
                        router_capabilities,
                    }
                    &&& session_id == welcome.session
                    &&& router_capabilities == crate::client::capabilities(
                        crate::transport::dict_model(welcome.details),
                    )
                    &&& processed.buffer == buffer
                    &&& processed.woken.len() == 0
                },
                RxMessage::Abort(_) => only(processed, ProcessMessageResult::Abort, buffer),
                _ => only(processed, ProcessMessageResult::ProtocolError, buffer),
            }
        }),
{
}

/// While the client is shutting down, a GOODBYE message is buffered and nothing else is; every
/// message is passed over otherwise.
pub proof fn lemma_heard_while_shutting_down(message: RxMessage, buffer: BufferModel)
    ensures
        ({
            let processed = crate::client::message_listener::processed(
                message,
                buffer,
                ClientState::ShuttingDown,
            );
            match message {
                RxMessage::Goodbye(item) => {
                    &&& joined(processed, buffer.goodbye, processed.buffer.goodbye, item)
                    &&& processed.buffer == (BufferModel {
                        goodbye: processed.buffer.goodbye,
                        ..buffer
                    })
                },
                _ => only(processed, ProcessMessageResult::Continue, buffer),
            }
        }),
{
    if let RxMessage::Goodbye(item) = message {
        lemma_inserted_comes_last(buffer.goodbye, item);
    }
}

/// In every state, a network error and the end of the stream end the connection, what cannot be
/// parsed is a violation of the protocol, and a message is what it is.
pub proof fn lemma_stream_is_heard(
    item: Option<Result<RxMessage, TransportError>>,
    buffer: BufferModel,
    state: ClientState,
)
    ensures
        ({
            let heard = crate::client::message_listener::listened(item, buffer, state);
            match item {
                None => only(heard, ProcessMessageResult::Abort, buffer),
                Some(Err(TransportError::NetworkError(_))) => only(
                    heard,
                    ProcessMessageResult::Abort,
                    buffer,
                ),
                Some(Err(TransportError::ParseError(_))) => only(
                    heard,
                    ProcessMessageResult::ProtocolError,
                    buffer,
                ),
                Some(Ok(message)) => heard == crate::client::message_listener::processed(
                    message,
                    buffer,
                    state,
                ),
            }
        }),
{
}

/// What is done about a result, from the first action to the last, and when it ends the listener.
/// The end of a connection closes the client; a violation of the protocol makes it fail and is
/// answered with ABORT; GOODBYE in an established session is answered with GOODBYE, and is passed
/// over otherwise; WELCOME establishes the session, and nothing is done about anything else.
pub proof fn lemma_actions_follow(result: ProcessMessageResult, state: ClientState)
    ensures
        ({
            let actions = crate::client::message_listener::expected_actions(result, state);
            let ends = crate::client::message_listener::ends_listener(result, state);
            match result {
                ProcessMessageResult::Continue => actions.len() == 0 && !ends,
                ProcessMessageResult::Welcome { session_id, router_capabilities } => {
                    &&& actions.len() == 1
                    &&& actions[0] == ActionModel::SetState(
                        ClientState::Established { session_id, router_capabilities },
                    )
                    &&& !ends
                },
                ProcessMessageResult::Abort => {
                    &&& actions.len() == 4
                    &&& actions[0] == ActionModel::SetState(ClientState::Closed)
                    &&& closes(actions.skip(1))
                    &&& ends
                },
                ProcessMessageResult::ProtocolError => {
                    &&& actions.len() == 5
                    &&& actions[0] == ActionModel::SetState(ClientState::Failed)
                    &&& actions[1] matches ActionModel::Send(message) && message is Abort
                    &&& closes(actions.skip(2))
                    &&& ends
                },
                ProcessMessageResult::Goodbye => if state is Established {
                    &&& actions.len() == 5
                    &&& actions[0] == ActionModel::SetState(ClientState::Closing)
                    &&& actions[1] matches ActionModel::Send(message) && message is Goodbye
                    &&& closes(actions.skip(2))
                    &&& ends
                } else {
                    actions.len() == 0 && !ends
                },
            }
        }),
{
}

/// The other tasks are stopped, then the sink is closed, and last the state is TransportClosed.
pub open spec fn closes(actions: Seq<ActionModel>) -> bool {
    &&& actions.len() == 3
    &&& actions[0] is StopTasks
    &&& actions[1] is CloseSender
    &&& actions[2] == ActionModel::SetState(ClientState::TransportClosed)
}

/// What a turn does is what is done about what was heard; only that the end of the stream calls for
/// nothing where the transport has been closed.
pub proof fn lemma_turn_follows(
    item: Option<Result<RxMessage, TransportError>>,
    buffer: BufferModel,
    state: ClientState,
)
    ensures
        ({
            let heard = crate::client::message_listener::listened(item, buffer, state);
            let actions = crate::client::message_listener::turn_actions(item, buffer, state);
            &&& item is None && state is TransportClosed ==> actions.len() == 0
            &&& item is Some || !(state is TransportClosed) ==> actions
                == crate::client::message_listener::expected_actions(heard.result, state)
            &&& crate::client::message_listener::turn_ends_listener(item, buffer, state)
                == crate::client::message_listener::ends_listener(heard.result, state)
        }),
{
}

/// Actions are told of as they are, one by one and in their order.
pub proof fn lemma_actions_are_told(actions: Seq<ListenerAction>)
    ensures
        ({
            let told = crate::client::message_listener::actions_model(actions);
            &&& told.len() == actions.len()
            &&& forall|i: int|
                0 <= i < told.len() ==> match actions[i] {
                    ListenerAction::SetState(state) => #[trigger] told[i] == ActionModel::SetState(
                        state,
                    ),
                    ListenerAction::Send(message) => told[i] == ActionModel::Send(message@),
                    ListenerAction::StopTasks => told[i] is StopTasks,
                    ListenerAction::CloseSender => told[i] is CloseSender,
                }
        }),
{
}

} // verus!
