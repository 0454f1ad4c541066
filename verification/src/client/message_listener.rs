//! The message listener, which receives and interprets messages from the transport, adding them
//! to a [`MessageBuffer`] as they come.
//!
//! The listener decides here; whoever runs it polls the stream and carries the decisions out.

use vstd::prelude::*;

use crate::buffer::{BufferModel, ErrorsModel, MessageBuffer};
use crate::client::{ClientState, RouterCapabilities};
use crate::id::{GlobalScope, Id};
use crate::pollable::PollableSetModel;
use crate::proto::rx::{self, RxMessage};
use crate::proto::{empty_dict, msg_code, TxMessage, TxModel};
use crate::transport::TransportError;
use crate::uri::known_uri;
use crate::uri::Uri;

verus! {

/// What comes of a received message.
#[derive(Debug, Eq, PartialEq)]
pub enum ProcessMessageResult {
    /// Processed a normal message; continue as usual.
    Continue,
    /// Establish a session.
    Welcome {
        /// The ID of the session.
        session_id: Id<GlobalScope>,
        /// What the router is able to do.
        router_capabilities: RouterCapabilities,
    },
    /// Immediately shut down.
    Abort,
    /// Clean remote-triggered disconnect.
    Goodbye,
    /// Send ABORT and shut down.
    ProtocolError,
}

/// What processing a message comes to.
pub struct Processed {
    /// What comes of the message.
    pub result: ProcessMessageResult,
    /// The messages that are buffered afterwards.
    pub buffer: BufferModel,
    /// The tasks that are notified.
    pub woken: Seq<u64>,
}

/// Nothing is buffered and nobody is notified.
pub open spec fn unbuffered(result: ProcessMessageResult, buffer: BufferModel) -> Processed {
    Processed { result, buffer, woken: Seq::empty() }
}

/// A set has got an item: the listener goes on, with those notified who waited for one.
pub open spec fn buffered<T>(set: PollableSetModel<T>, buffer: BufferModel) -> Processed {
    Processed { result: ProcessMessageResult::Continue, buffer, woken: set.waiting }
}

/// What an ERROR message comes to in an established session: it is buffered by the type of the
/// request that failed. Other types are a violation of the protocol.
pub open spec fn processed_error(error: rx::Error, buffer: BufferModel) -> Processed {
    let errors = buffer.errors;
    if error.request_type == msg_code::SUBSCRIBE {
        buffered(
            errors.subscribe,
            BufferModel {
                errors: ErrorsModel { subscribe: errors.subscribe.inserted(error), ..errors },
                ..buffer
            },
        )
    } else if error.request_type == msg_code::UNSUBSCRIBE {
        buffered(
            errors.unsubscribe,
            BufferModel {
                errors: ErrorsModel { unsubscribe: errors.unsubscribe.inserted(error), ..errors },
                ..buffer
            },
        )
    } else if error.request_type == msg_code::PUBLISH {
        buffered(
            errors.publish,
            BufferModel {
                errors: ErrorsModel { publish: errors.publish.inserted(error), ..errors },
                ..buffer
            },
        )
    } else if error.request_type == msg_code::REGISTER {
        buffered(
            errors.register,
            BufferModel {
                errors: ErrorsModel { register: errors.register.inserted(error), ..errors },
                ..buffer
            },
        )
    } else if error.request_type == msg_code::UNREGISTER {
        buffered(
            errors.unregister,
            BufferModel {
                errors: ErrorsModel { unregister: errors.unregister.inserted(error), ..errors },
                ..buffer
            },
        )
    } else if error.request_type == msg_code::CALL {
        buffered(
            errors.call,
            BufferModel {
                errors: ErrorsModel { call: errors.call.inserted(error), ..errors },
                ..buffer
            },
        )
    } else {
        unbuffered(ProcessMessageResult::ProtocolError, buffer)
    }
}

/// What a message comes to while the client is shutting down: everything but the acknowledgement
/// of the disconnection is ignored.
pub open spec fn processed_while_shutting_down(
    message: RxMessage,
    buffer: BufferModel,
) -> Processed {
    match message {
        RxMessage::Goodbye(goodbye) => buffered(
            buffer.goodbye,
            BufferModel { goodbye: buffer.goodbye.inserted(goodbye), ..buffer },
        ),
        _ => unbuffered(ProcessMessageResult::Continue, buffer),
    }
}

/// What a message comes to in an established session: replies and events are buffered, each in its
/// own place. With a SUBSCRIBED message the events of the subscription get their queue, so that none
/// is lost that comes right behind it. A second WELCOME, an ERROR for a type of request that there is not and an EVENT for
/// an unknown subscription are violations of the protocol.
pub open spec fn processed_while_established(
    message: RxMessage,
    buffer: BufferModel,
) -> Processed {
    match message {
        RxMessage::Welcome(_) => unbuffered(ProcessMessageResult::ProtocolError, buffer),
        RxMessage::Abort(_) => unbuffered(ProcessMessageResult::Abort, buffer),
        RxMessage::Goodbye(_) => unbuffered(ProcessMessageResult::Goodbye, buffer),
        RxMessage::Error(error) => processed_error(error, buffer),
        RxMessage::Event(event) => if buffer.event.contains_key(event.subscription@) {
            let queue = buffer.event[event.subscription@];
            buffered(
                queue,
                BufferModel {
                    event: buffer.event.insert(event.subscription@, queue.inserted(event)),
                    ..buffer
                },
            )
        } else {
            unbuffered(ProcessMessageResult::ProtocolError, buffer)
        },
        RxMessage::Subscribed(message) => buffered(
            buffer.subscribed,
            (BufferModel {
                subscribed: buffer.subscribed.inserted(message),
                ..buffer
            }).with_event_queue(message.subscription@),
        ),
        RxMessage::Unsubscribed(message) => buffered(
            buffer.unsubscribed,
            BufferModel { unsubscribed: buffer.unsubscribed.inserted(message), ..buffer },
        ),
        RxMessage::Published(message) => buffered(
            buffer.published,
            BufferModel { published: buffer.published.inserted(message), ..buffer },
        ),
        RxMessage::Registered(message) => buffered(
            buffer.registered,
            BufferModel { registered: buffer.registered.inserted(message), ..buffer },
        ),
        RxMessage::Unregistered(message) => buffered(
            buffer.unregistered,
            BufferModel { unregistered: buffer.unregistered.inserted(message), ..buffer },
        ),
        RxMessage::Invocation(message) => buffered(
            buffer.invocation,
            BufferModel { invocation: buffer.invocation.inserted(message), ..buffer },
        ),
        RxMessage::Result(message) => buffered(
            buffer.result,
            BufferModel { result: buffer.result.inserted(message), ..buffer },
        ),
    }
}

/// What a message comes to while there is no session: WELCOME establishes one, ABORT ends the
/// connection, and everything else is a violation of the protocol.
pub open spec fn processed_without_session(message: RxMessage, buffer: BufferModel) -> Processed {
    match message {
        RxMessage::Welcome(welcome) => unbuffered(
            ProcessMessageResult::Welcome {
                session_id: welcome.session,
                router_capabilities: crate::client::capabilities(
                    crate::transport::dict_model(welcome.details),
                ),
            },
            buffer,
        ),
        RxMessage::Abort(_) => unbuffered(ProcessMessageResult::Abort, buffer),
        _ => unbuffered(ProcessMessageResult::ProtocolError, buffer),
    }
}

/// What a message comes to.
pub open spec fn processed(
    message: RxMessage,
    buffer: BufferModel,
    state: ClientState,
) -> Processed {
    match state {
        ClientState::ShuttingDown => processed_while_shutting_down(message, buffer),
        ClientState::Established { .. } => processed_while_established(message, buffer),
        _ => processed_without_session(message, buffer),
    }
}

/// What a value of the stream comes to. A network error ends the connection, and what cannot be
/// parsed is a violation of the protocol.
pub open spec fn processed_value(
    value: Result<RxMessage, TransportError>,
    buffer: BufferModel,
    state: ClientState,
) -> Processed {
    match value {
        Err(TransportError::NetworkError(_)) => unbuffered(ProcessMessageResult::Abort, buffer),
        Err(TransportError::ParseError(_)) => unbuffered(
            ProcessMessageResult::ProtocolError,
            buffer,
        ),
        Ok(message) => processed(message, buffer, state),
    }
}

/// Interprets a value of the stream.
pub fn process_stream_value(
    value: Result<RxMessage, TransportError>,
    received: &mut MessageBuffer,
    client_state: ClientState,
) -> (outcome: (ProcessMessageResult, Vec<u64>))
    ensures
        ({
            let expected = processed_value(value, old(received)@, client_state);
            &&& outcome.0 == expected.result
            &&& outcome.1@ == expected.woken
            &&& final(received)@ == expected.buffer
        }),
{
    match value {
        Err(TransportError::NetworkError(_)) => (ProcessMessageResult::Abort, Vec::new()),
        Err(TransportError::ParseError(_)) => (ProcessMessageResult::ProtocolError, Vec::new()),
        Ok(message) => process_message(message, received, client_state),
    }
}

fn process_error(error: rx::Error, received: &mut MessageBuffer) -> (outcome: (
    ProcessMessageResult,
    Vec<u64>,
))
    ensures
        ({
            let expected = processed_error(error, old(received)@);
            &&& outcome.0 == expected.result
            &&& outcome.1@ == expected.woken
            &&& final(received)@ == expected.buffer
        }),
{
    if error.request_type == msg_code::SUBSCRIBE {
        let woken = received.errors.subscribe.insert(error);
        (ProcessMessageResult::Continue, woken)
    } else if error.request_type == msg_code::UNSUBSCRIBE {
        let woken = received.errors.unsubscribe.insert(error);
        (ProcessMessageResult::Continue, woken)
    } else if error.request_type == msg_code::PUBLISH {
        let woken = received.errors.publish.insert(error);
        (ProcessMessageResult::Continue, woken)
    } else if error.request_type == msg_code::REGISTER {
        let woken = received.errors.register.insert(error);
        (ProcessMessageResult::Continue, woken)
    } else if error.request_type == msg_code::UNREGISTER {
        let woken = received.errors.unregister.insert(error);
        (ProcessMessageResult::Continue, woken)
    } else if error.request_type == msg_code::CALL {
        let woken = received.errors.call.insert(error);
        (ProcessMessageResult::Continue, woken)
    } else {
        (ProcessMessageResult::ProtocolError, Vec::new())
    }
}

/// Interprets a message: adds it to the buffer if someone may wait for it, and tells what else is
/// to be done, and which tasks are to be notified.
pub fn process_message(
    message: RxMessage,
    received: &mut MessageBuffer,
    client_state: ClientState,
) -> (outcome: (ProcessMessageResult, Vec<u64>))
    ensures
        ({
            let expected = processed(message, old(received)@, client_state);
            &&& outcome.0 == expected.result
            &&& outcome.1@ == expected.woken
            &&& final(received)@ == expected.buffer
        }),
{
    if let ClientState::ShuttingDown = client_state {
        return match message {
            RxMessage::Goodbye(goodbye) => {
                let woken = received.goodbye.insert(goodbye);
                (ProcessMessageResult::Continue, woken)
            },
            _ => (ProcessMessageResult::Continue, Vec::new()),
        };
    }
    let established = client_state.is_established();
    match message {
        RxMessage::Welcome(welcome) => if established {
            (ProcessMessageResult::ProtocolError, Vec::new())
        } else {
            let router_capabilities = RouterCapabilities::from_details(&welcome.details);
            (
                ProcessMessageResult::Welcome { session_id: welcome.session, router_capabilities },
                Vec::new(),
            )
        },
        RxMessage::Abort(_) => (ProcessMessageResult::Abort, Vec::new()),
        RxMessage::Goodbye(_) => if established {
            (ProcessMessageResult::Goodbye, Vec::new())
        } else {
            (ProcessMessageResult::ProtocolError, Vec::new())
        },
        RxMessage::Error(error) => if established {
            process_error(error, received)
        } else {
            (ProcessMessageResult::ProtocolError, Vec::new())
        },
        RxMessage::Event(event) => if established {
            match received.insert_event(event) {
                Some(woken) => (ProcessMessageResult::Continue, woken),
                None => (ProcessMessageResult::ProtocolError, Vec::new()),
            }
        } else {
            (ProcessMessageResult::ProtocolError, Vec::new())
        },
        RxMessage::Subscribed(message) => if established {
            received.add_event_queue(message.subscription.raw_value());
            let woken = received.subscribed.insert(message);
            (ProcessMessageResult::Continue, woken)
        } else {
            (ProcessMessageResult::ProtocolError, Vec::new())
        },
        RxMessage::Unsubscribed(message) => if established {
            let woken = received.unsubscribed.insert(message);
            (ProcessMessageResult::Continue, woken)
        } else {
            (ProcessMessageResult::ProtocolError, Vec::new())
        },
        RxMessage::Published(message) => if established {
            let woken = received.published.insert(message);
            (ProcessMessageResult::Continue, woken)
        } else {
            (ProcessMessageResult::ProtocolError, Vec::new())
        },
        RxMessage::Registered(message) => if established {
            let woken = received.registered.insert(message);
            (ProcessMessageResult::Continue, woken)
        } else {
            (ProcessMessageResult::ProtocolError, Vec::new())
        },
        RxMessage::Unregistered(message) => if established {
            let woken = received.unregistered.insert(message);
            (ProcessMessageResult::Continue, woken)
        } else {
            (ProcessMessageResult::ProtocolError, Vec::new())
        },
        RxMessage::Invocation(message) => if established {
            let woken = received.invocation.insert(message);
            (ProcessMessageResult::Continue, woken)
        } else {
            (ProcessMessageResult::ProtocolError, Vec::new())
        },
        RxMessage::Result(message) => if established {
            let woken = received.result.insert(message);
            (ProcessMessageResult::Continue, woken)
        } else {
            (ProcessMessageResult::ProtocolError, Vec::new())
        },
    }
}

/// What the listener has to have done.
#[derive(Debug)]
pub enum ListenerAction {
    /// Write the client state.
    SetState(ClientState),
    /// Send a message and flush the sink. A failure is passed over.
    Send(TxMessage),
    /// Stop all tasks but the listener.
    StopTasks,
    /// Close the sink. A failure is passed over.
    CloseSender,
}

/// What a [`ListenerAction`] is, apart from how its message is stored.
#[verifier::ext_equal]
pub enum ActionModel {
    /// See [`ListenerAction::SetState`].
    SetState(ClientState),
    /// See [`ListenerAction::Send`].
    Send(TxModel),
    /// See [`ListenerAction::StopTasks`].
    StopTasks,
    /// See [`ListenerAction::CloseSender`].
    CloseSender,
}

impl View for ListenerAction {
    type V = ActionModel;

    open spec fn view(&self) -> ActionModel {
        match self {
            ListenerAction::SetState(state) => ActionModel::SetState(*state),
            ListenerAction::Send(message) => ActionModel::Send(message@),
            ListenerAction::StopTasks => ActionModel::StopTasks,
            ListenerAction::CloseSender => ActionModel::CloseSender,
        }
    }
}

/// What actions are, one by one.
pub open spec fn actions_model(actions: Seq<ListenerAction>) -> Seq<ActionModel> {
    Seq::new(actions.len(), |i: int| actions[i]@)
}

/// What the listener does about a result: the actions, in their order, and whether it is finished.
#[derive(Debug)]
pub struct Reaction {
    /// The actions, in their order.
    pub actions: Vec<ListenerAction>,
    /// Whether the listener ends after the actions.
    pub finished: bool,
}

/// An ABORT message that tells of a violation of the protocol.
pub open spec fn violation_abort() -> TxModel {
    TxModel::Abort { details: Map::empty(), reason: known_uri::protocol_violation@ }
}

/// A GOODBYE message that acknowledges one.
pub open spec fn goodbye_reply() -> TxModel {
    TxModel::Goodbye {
        details: Map::empty(),
        reason: known_uri::session_close::goodbye_and_out@,
    }
}

/// The actions that a result calls for, in `state`.
pub open spec fn expected_actions(
    result: ProcessMessageResult,
    state: ClientState,
) -> Seq<ActionModel> {
    match result {
        ProcessMessageResult::Continue => Seq::empty(),
        ProcessMessageResult::Welcome { session_id, router_capabilities } => seq![
            ActionModel::SetState(ClientState::Established { session_id, router_capabilities }),
        ],
        ProcessMessageResult::Abort => seq![
            ActionModel::SetState(ClientState::Closed),
            ActionModel::StopTasks,
            ActionModel::CloseSender,
            ActionModel::SetState(ClientState::TransportClosed),
        ],
        ProcessMessageResult::ProtocolError => seq![
            ActionModel::SetState(ClientState::Failed),
            ActionModel::Send(violation_abort()),
            ActionModel::StopTasks,
            ActionModel::CloseSender,
            ActionModel::SetState(ClientState::TransportClosed),
        ],
        ProcessMessageResult::Goodbye => if state is Established {
            seq![
                ActionModel::SetState(ClientState::Closing),
                ActionModel::Send(goodbye_reply()),
                ActionModel::StopTasks,
                ActionModel::CloseSender,
                ActionModel::SetState(ClientState::TransportClosed),
            ]
        } else {
            Seq::empty()
        },
    }
}

/// Whether a result ends the listener, in `state`.
pub open spec fn ends_listener(result: ProcessMessageResult, state: ClientState) -> bool {
    match result {
        ProcessMessageResult::Continue => false,
        ProcessMessageResult::Welcome { .. } => false,
        ProcessMessageResult::Abort => true,
        ProcessMessageResult::ProtocolError => true,
        ProcessMessageResult::Goodbye => state is Established,
    }
}

/// Decides what the listener does about the result of a message. `client_state` is the state of the
/// client when that is decided: GOODBYE messages are ignored unless it is Established.
pub fn react(result: ProcessMessageResult, client_state: ClientState) -> (reaction: Reaction)
    ensures
        actions_model(reaction.actions@) == expected_actions(result, client_state),
        reaction.finished == ends_listener(result, client_state),
{
    let mut actions: Vec<ListenerAction> = Vec::new();
    let finished: bool = match result {
        ProcessMessageResult::Continue => false,
        ProcessMessageResult::Welcome { session_id, router_capabilities } => {
            actions.push(
                ListenerAction::SetState(
                    ClientState::Established { session_id, router_capabilities },
                ),
            );
            false
        },
        ProcessMessageResult::Abort => {
            actions.push(ListenerAction::SetState(ClientState::Closed));
            actions.push(ListenerAction::StopTasks);
            actions.push(ListenerAction::CloseSender);
            actions.push(ListenerAction::SetState(ClientState::TransportClosed));
            true
        },
        ProcessMessageResult::ProtocolError => {
            actions.push(ListenerAction::SetState(ClientState::Failed));
            actions.push(
                ListenerAction::Send(
                    TxMessage::Abort {
                        details: empty_dict(),
                        reason: Uri::raw(known_uri::protocol_violation.to_owned()),
                    },
                ),
            );
            actions.push(ListenerAction::StopTasks);
            actions.push(ListenerAction::CloseSender);
            actions.push(ListenerAction::SetState(ClientState::TransportClosed));
            true
        },
        ProcessMessageResult::Goodbye => if client_state.is_established() {
            actions.push(ListenerAction::SetState(ClientState::Closing));
            actions.push(
                ListenerAction::Send(
                    TxMessage::Goodbye {
                        details: empty_dict(),
                        reason: Uri::raw(known_uri::session_close::goodbye_and_out.to_owned()),
                    },
                ),
            );
            actions.push(ListenerAction::StopTasks);
            actions.push(ListenerAction::CloseSender);
            actions.push(ListenerAction::SetState(ClientState::TransportClosed));
            true
        } else {
            false
        },
    };
    assert(actions_model(actions@) =~= expected_actions(result, client_state));
    Reaction { actions, finished }
}

/// What comes of one turn of the listener. `item` is what the stream gave, or `None` where it has
/// ended; then the connection is over, as after an ABORT message.
pub open spec fn listened(
    item: Option<Result<RxMessage, TransportError>>,
    buffer: BufferModel,
    state: ClientState,
) -> Processed {
    match item {
        Some(value) => processed_value(value, buffer, state),
        None => unbuffered(ProcessMessageResult::Abort, buffer),
    }
}

/// The actions that one turn of the listener calls for. Where the transport has been closed already,
/// the end of the stream calls for none.
pub open spec fn turn_actions(
    item: Option<Result<RxMessage, TransportError>>,
    buffer: BufferModel,
    state: ClientState,
) -> Seq<ActionModel> {
    if item is None && state is TransportClosed {
        Seq::empty()
    } else {
        expected_actions(listened(item, buffer, state).result, state)
    }
}

/// Whether the listener ends with a turn.
pub open spec fn turn_ends_listener(
    item: Option<Result<RxMessage, TransportError>>,
    buffer: BufferModel,
    state: ClientState,
) -> bool {
    ends_listener(listened(item, buffer, state).result, state)
}

/// One turn of the listener: interprets what the stream came to, its end too, and decides what is
/// done about it. The tasks to be notified are returned too.
pub fn listen(
    item: Option<Result<RxMessage, TransportError>>,
    received: &mut MessageBuffer,
    client_state: ClientState,
) -> (outcome: (Reaction, Vec<u64>))
    ensures
        actions_model(outcome.0.actions@) == turn_actions(item, old(received)@, client_state),
        outcome.0.finished == turn_ends_listener(item, old(received)@, client_state),
        outcome.1@ == listened(item, old(received)@, client_state).woken,
        final(received)@ == listened(item, old(received)@, client_state).buffer,
{
    match item {
        Some(value) => {
            let (result, woken) = process_stream_value(value, received, client_state);
            (react(result, client_state), woken)
        },
        None => match client_state {
            ClientState::TransportClosed => (
                Reaction { actions: Vec::new(), finished: true },
                Vec::new(),
            ),
            _ => (react(ProcessMessageResult::Abort, client_state), Vec::new()),
        },
    }
}

/// A message is buffered only while a session is established, but for the GOODBYE message that
/// acknowledges a shutdown.
pub proof fn lemma_buffered_only_in_session(
    value: Result<RxMessage, TransportError>,
    buffer: BufferModel,
    state: ClientState,
)
    ensures
        !(state is Established) && !(state is ShuttingDown && value is Ok
            && value->Ok_0 is Goodbye) ==> processed_value(value, buffer, state).buffer == buffer,
{
}

/// Whatever ends the connection, establishes a session or violates the protocol leaves the buffer
/// as it is and notifies nobody.
pub proof fn lemma_only_continue_buffers(
    value: Result<RxMessage, TransportError>,
    buffer: BufferModel,
    state: ClientState,
)
    ensures
        !(processed_value(value, buffer, state).result is Continue) ==> processed_value(
            value,
            buffer,
            state,
        ).buffer == buffer && processed_value(value, buffer, state).woken.len() == 0,
{
}

/// While the client is shutting down no message ends the listener, violates the protocol or
/// establishes a session.
pub proof fn lemma_ignored_while_shutting_down(message: RxMessage, buffer: BufferModel)
    ensures
        processed(message, buffer, ClientState::ShuttingDown).result is Continue,
        !(message is Goodbye) ==> processed(message, buffer, ClientState::ShuttingDown).buffer
            == buffer,
{
}

/// When the listener ends because of a result, it has first stopped the other tasks, then closed the
/// sink, and last of all set the state to TransportClosed. As long as it goes on it does none of
/// these.
pub proof fn lemma_ends_with_transport_closed(result: ProcessMessageResult, state: ClientState)
    ensures
        ({
            let actions = expected_actions(result, state);
            let n = actions.len();
            if ends_listener(result, state) {
                &&& n >= 4
                &&& actions[n - 3] == ActionModel::StopTasks
                &&& actions[n - 2] == ActionModel::CloseSender
                &&& actions[n - 1] == ActionModel::SetState(ClientState::TransportClosed)
            } else {
                forall|i: int|
                    0 <= i < n ==> !((#[trigger] actions[i]) is StopTasks)
                        && !(actions[i] is CloseSender) && actions[i] != ActionModel::SetState(
                        ClientState::TransportClosed,
                    )
            }
        }),
{
}

/// The state that the client is in after actions have been carried out in `state`.
pub open spec fn state_after(state: ClientState, actions: Seq<ActionModel>) -> ClientState
    decreases actions.len(),
{
    if actions.len() == 0 {
        state
    } else {
        match actions.last() {
            ActionModel::SetState(last) => last,
            _ => state_after(state, actions.drop_last()),
        }
    }
}

/// The listener only finishes when the client is closed: whatever the turn was with which it ends,
/// and whatever state the client was in, the state is then TransportClosed.
pub proof fn lemma_finishes_only_when_closed(
    item: Option<Result<RxMessage, TransportError>>,
    buffer: BufferModel,
    state: ClientState,
)
    requires
        turn_ends_listener(item, buffer, state),
    ensures
        state_after(state, turn_actions(item, buffer, state)) is TransportClosed,
{
    lemma_ends_with_transport_closed(listened(item, buffer, state).result, state);
}

/// The end of the stream ends the listener, in every state, and nothing is buffered.
pub proof fn lemma_end_of_stream(buffer: BufferModel, state: ClientState)
    ensures
        turn_ends_listener(None, buffer, state),
        listened(None, buffer, state).buffer == buffer,
        listened(None, buffer, state).woken.len() == 0,
{
}

/// The listener sends at most one message: ABORT where the protocol was violated, GOODBYE where the
/// router said so in an established session, and nothing else.
pub proof fn lemma_replies(result: ProcessMessageResult, state: ClientState, i: int)
    requires
        0 <= i < expected_actions(result, state).len(),
        expected_actions(result, state)[i] is Send,
    ensures
        i == 1,
        result is ProtocolError && expected_actions(result, state)[i] == ActionModel::Send(
            violation_abort(),
        ) || result is Goodbye && state is Established && expected_actions(result, state)[i]
            == ActionModel::Send(goodbye_reply()),
{
}

} // verus!
