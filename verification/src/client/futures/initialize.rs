//! Joining a realm, and listening for its end.

use vstd::prelude::*;

use crate::client::futures::{
    check_for_timeout, FutureError, FutureErrorModel, QueueStage, QueueStep, QueuedModel,
    QueuedSend, SinkPoll,
};
use crate::client::ops::initialize::hello;
use crate::client::{ClientState, Duration, RouterCapabilities};
use crate::error::WampErrorModel;
use crate::id::{GlobalScope, Id};
use crate::pollable::Poll;
use crate::proto::{empty_dict, TxMessage, TxModel};
use crate::received::{ReceivedModel, ReceivedValues};
use crate::uri::known_uri;
use crate::uri::Uri;

verus! {

/// How far the listener for the end of the session is.
#[derive(Debug, Clone, Copy, Eq, PartialEq, Structural)]
pub enum ProtocolMessageListenerState {
    /// Nothing has come yet.
    Ready,
    /// A GOODBYE message is to be answered.
    StartReplyGoodbye,
    /// The answer is to be sent.
    SendGoodbye,
    /// All tasks are to be stopped.
    StopAllTasks,
    /// The transport is to be closed.
    CloseTransport,
}

/// How what the listener asked for went.
#[derive(Debug)]
pub enum Progress {
    /// It is not done yet.
    NotReady,
    /// It is done.
    Ready,
    /// It failed.
    Failed,
}

/// What the listener does next.
#[derive(Debug, Clone, Copy, Eq, PartialEq, Structural)]
pub enum ProtocolStep {
    /// Goes on at once.
    Again,
    /// Has all other tasks stopped and begins to close the transport, then goes on.
    StopTasksAndClose,
    /// Waits to be polled again.
    Pending,
    /// Ends.
    Finished,
    /// Ends because the transport failed.
    Failed,
}

/// Used to listen for ABORT and GOODBYE messages from the router.
#[derive(Debug)]
pub struct ProtocolMessageListener {
    /// How far the listener is.
    pub state: ProtocolMessageListenerState,
}

/// What a turn of the listener comes to.
#[verifier::ext_equal]
pub struct ProtocolTurn {
    /// How far the listener is then.
    pub state: ProtocolMessageListenerState,
    /// What it does next.
    pub step: ProtocolStep,
    /// The messages that are buffered then.
    pub received: ReceivedModel,
    /// The client state.
    pub client_state: ClientState,
}

/// What a turn comes to while nothing has come yet. ABORT messages count in every client state,
/// GOODBYE messages only in an established session: expected ones are not eaten.
pub open spec fn ready_turn(
    received: ReceivedModel,
    client_state: ClientState,
    task: u64,
) -> ProtocolTurn {
    if received.abort.items.len() > 0 {
        ProtocolTurn {
            state: ProtocolMessageListenerState::StopAllTasks,
            step: ProtocolStep::Again,
            received: ReceivedModel { abort: received.abort.taken(0), ..received },
            client_state: ClientState::Closed,
        }
    } else {
        let waiting = ReceivedModel { abort: received.abort.awaited_by(task), ..received };
        if !(client_state is Established) {
            ProtocolTurn {
                state: ProtocolMessageListenerState::Ready,
                step: ProtocolStep::Pending,
                received: waiting,
                client_state,
            }
        } else if received.goodbye.items.len() > 0 {
            ProtocolTurn {
                state: ProtocolMessageListenerState::StartReplyGoodbye,
                step: ProtocolStep::Again,
                received: ReceivedModel { goodbye: received.goodbye.taken(0), ..waiting },
                client_state: ClientState::Closing,
            }
        } else {
            ProtocolTurn {
                state: ProtocolMessageListenerState::Ready,
                step: ProtocolStep::Pending,
                received: ReceivedModel { goodbye: received.goodbye.awaited_by(task), ..waiting },
                client_state,
            }
        }
    }
}

/// The stage that follows when what was asked for is done, and what the listener does then.
pub open spec fn stage_after(state: ProtocolMessageListenerState) -> (
    ProtocolMessageListenerState,
    ProtocolStep,
) {
    match state {
        ProtocolMessageListenerState::StartReplyGoodbye => (
            ProtocolMessageListenerState::SendGoodbye,
            ProtocolStep::Again,
        ),
        ProtocolMessageListenerState::SendGoodbye => (
            ProtocolMessageListenerState::StopAllTasks,
            ProtocolStep::Again,
        ),
        _ => (state, ProtocolStep::Finished),
    }
}

/// What a turn of the listener comes to. A listener that has been told to stop ends.
pub open spec fn protocol_turn(
    state: ProtocolMessageListenerState,
    stopped: bool,
    progress: Progress,
    received: ReceivedModel,
    client_state: ClientState,
    task: u64,
) -> ProtocolTurn {
    if stopped {
        ProtocolTurn { state, step: ProtocolStep::Finished, received, client_state }
    } else {
        match state {
            ProtocolMessageListenerState::Ready => ready_turn(received, client_state, task),
            ProtocolMessageListenerState::StopAllTasks => ProtocolTurn {
                state: ProtocolMessageListenerState::CloseTransport,
                step: ProtocolStep::StopTasksAndClose,
                received,
                client_state,
            },
            _ => match progress {
                Progress::NotReady => ProtocolTurn {
                    state,
                    step: ProtocolStep::Pending,
                    received,
                    client_state,
                },
                Progress::Failed => ProtocolTurn {
                    state,
                    step: ProtocolStep::Failed,
                    received,
                    client_state,
                },
                Progress::Ready => ProtocolTurn {
                    state: stage_after(state).0,
                    step: stage_after(state).1,
                    received,
                    client_state,
                },
            },
        }
    }
}

impl ProtocolMessageListener {
    /// A listener to which nothing has come yet.
    pub fn new() -> (listener: Self)
        ensures
            listener.state is Ready,
    {
        ProtocolMessageListener { state: ProtocolMessageListenerState::Ready }
    }

    /// The message that answers a GOODBYE message.
    pub fn goodbye_reply(&self) -> (message: TxMessage)
        ensures
            message@ == crate::client::message_listener::goodbye_reply(),
    {
        let details = empty_dict();
        TxMessage::Goodbye {
            details,
            reason: Uri::raw(known_uri::session_close::goodbye_and_out.to_owned()),
        }
    }

    /// One turn of the listener. `stopped` says whether the listener has been told to stop, or can
    /// no longer be told so. `progress` is how taking the answer into the queue, emptying the queue
    /// or closing the transport went, according to the state of the listener.
    pub fn poll_step(
        &mut self,
        stopped: bool,
        progress: Progress,
        values: &mut ReceivedValues,
        client_state: &mut ClientState,
        task: u64,
    ) -> (step: ProtocolStep)
        ensures
            (ProtocolTurn {
                state: final(self).state,
                step,
                received: final(values)@,
                client_state: *final(client_state),
            }) == protocol_turn(
                old(self).state,
                stopped,
                progress,
                old(values)@,
                *old(client_state),
                task,
            ),
    {
        if stopped {
            return ProtocolStep::Finished;
        }
        match self.state {
            ProtocolMessageListenerState::Ready => match values.abort.poll_take_any(task) {
                Poll::Ready(_) => {
                    *client_state = ClientState::Closed;
                    self.state = ProtocolMessageListenerState::StopAllTasks;
                    ProtocolStep::Again
                },
                Poll::Pending => if client_state.is_established() {
                    match values.goodbye.poll_take_any(task) {
                        Poll::Ready(_) => {
                            *client_state = ClientState::Closing;
                            self.state = ProtocolMessageListenerState::StartReplyGoodbye;
                            ProtocolStep::Again
                        },
                        Poll::Pending => ProtocolStep::Pending,
                    }
                } else {
                    ProtocolStep::Pending
                },
            },
            ProtocolMessageListenerState::StopAllTasks => {
                self.state = ProtocolMessageListenerState::CloseTransport;
                ProtocolStep::StopTasksAndClose
            },
            ProtocolMessageListenerState::StartReplyGoodbye => match progress {
                Progress::NotReady => ProtocolStep::Pending,
                Progress::Failed => ProtocolStep::Failed,
                Progress::Ready => {
                    self.state = ProtocolMessageListenerState::SendGoodbye;
                    ProtocolStep::Again
                },
            },
            ProtocolMessageListenerState::SendGoodbye => match progress {
                Progress::NotReady => ProtocolStep::Pending,
                Progress::Failed => ProtocolStep::Failed,
                Progress::Ready => {
                    self.state = ProtocolMessageListenerState::StopAllTasks;
                    ProtocolStep::Again
                },
            },
            ProtocolMessageListenerState::CloseTransport => match progress {
                Progress::NotReady => ProtocolStep::Pending,
                Progress::Failed => ProtocolStep::Failed,
                Progress::Ready => ProtocolStep::Finished,
            },
        }
    }
}

/// The joining of a realm: a HELLO message is sent, and a WELCOME message is waited for.
#[derive(Debug)]
pub struct InitializeFuture {
    /// The sending of the HELLO message.
    pub send: QueuedSend,
    /// The timeout for basic requests.
    pub timeout_duration: Duration,
    /// The timeout for shutting down.
    pub shutdown_timeout_duration: Duration,
    /// If true, the client will panic when dropped if it's still open.
    pub panic_on_drop_while_open: bool,
}

/// A session that has been established.
#[derive(Debug)]
pub struct Session {
    /// The ID of the session.
    pub session_id: Id<GlobalScope>,
    /// What the router is able to do.
    pub router_capabilities: RouterCapabilities,
    /// The timeout for basic requests.
    pub timeout_duration: Duration,
    /// The timeout for shutting down.
    pub shutdown_timeout_duration: Duration,
    /// If true, the client will panic when dropped if it's still open.
    pub panic_on_drop_while_open: bool,
    /// The state of the client.
    pub state: ClientState,
    /// The listener for the end of the session.
    pub listener: ProtocolMessageListener,
}

impl InitializeFuture {
    /// Begins to join a realm.
    pub fn new(
        realm: Uri,
        timeout_duration: Duration,
        shutdown_timeout_duration: Duration,
        panic_on_drop_while_open: bool,
    ) -> (future: Self)
        ensures
            future.send@ == (QueuedModel {
                stage: QueueStage::StartSend,
                message: Some(
                    TxModel::Hello {
                        realm: realm@,
                        details: crate::client::ops::initialize::hello_details(None),
                    },
                ),
            }),
            future.timeout_duration == timeout_duration,
            future.shutdown_timeout_duration == shutdown_timeout_duration,
            future.panic_on_drop_while_open == panic_on_drop_while_open,
    {
        InitializeFuture {
            send: QueuedSend::new(hello(realm, None)),
            timeout_duration,
            shutdown_timeout_duration,
            panic_on_drop_while_open,
        }
    }

    /// Goes on with sending after the transport has answered, unless the time is up.
    pub fn poll_sink(&mut self, timed_out: bool, polled: SinkPoll) -> (step: QueueStep)
        ensures
            if timed_out {
                &&& step matches QueueStep::Failed(error)
                &&& error@ == FutureErrorModel::Wamp(WampErrorModel::Timeout)
                &&& *final(self) == *old(self)
            } else {
                &&& final(self).send@ == crate::client::futures::queued_step(
                    old(self).send@,
                    polled,
                )
                &&& crate::client::futures::step_follows(old(self).send@.stage, polled, step)
                &&& final(self).timeout_duration == old(self).timeout_duration
                &&& final(self).shutdown_timeout_duration == old(self).shutdown_timeout_duration
                &&& final(self).panic_on_drop_while_open == old(self).panic_on_drop_while_open
            },
    {
        match check_for_timeout(timed_out) {
            Err(error) => QueueStep::Failed(error),
            Ok(()) => self.send.sink_polled(polled),
        }
    }

    /// Waits for a WELCOME message, once the HELLO message has been sent, unless the time is up.
    pub fn poll_welcome(&self, timed_out: bool, received: &mut ReceivedValues, task: u64) -> (
    polled: Poll<Result<Session, FutureError>>)
        requires
            self.send@.stage is Sent,
        ensures
            ({
                let welcome = old(received)@.welcome;
                if timed_out {
                    &&& polled matches Poll::Ready(Err(error))
                    &&& error@ == FutureErrorModel::Wamp(WampErrorModel::Timeout)
                    &&& final(received)@ == old(received)@
                } else if welcome.items.len() > 0 {
                    let message = welcome.items[0];
                    let router_capabilities = crate::client::capabilities(
                        crate::transport::dict_model(message.details),
                    );
                    &&& polled == Poll::Ready(
                        Ok::<Session, FutureError>(
                            Session {
                                session_id: message.session,
                                router_capabilities,
                                timeout_duration: self.timeout_duration,
                                shutdown_timeout_duration: self.shutdown_timeout_duration,
                                panic_on_drop_while_open: self.panic_on_drop_while_open,
                                state: ClientState::Established {
                                    session_id: message.session,
                                    router_capabilities,
                                },
                                listener: ProtocolMessageListener {
                                    state: ProtocolMessageListenerState::Ready,
                                },
                            },
                        ),
                    )
                    &&& final(received)@ == (ReceivedModel {
                        welcome: welcome.taken(0),
                        ..old(received)@
                    })
                } else {
                    &&& polled is Pending
                    &&& final(received)@ == (ReceivedModel {
                        welcome: welcome.awaited_by(task),
                        ..old(received)@
                    })
                }
            }),
    {
        match check_for_timeout(timed_out) {
            Err(error) => return Poll::Ready(Err(error)),
            Ok(()) => {},
        }
        match received.welcome.poll_take_any(task) {
            Poll::Pending => Poll::Pending,
            Poll::Ready(message) => {
                let router_capabilities = RouterCapabilities::from_details(&message.details);
                Poll::Ready(
                    Ok(
                        Session {
                            session_id: message.session,
                            router_capabilities,
                            timeout_duration: self.timeout_duration,
                            shutdown_timeout_duration: self.shutdown_timeout_duration,
                            panic_on_drop_while_open: self.panic_on_drop_while_open,
                            state: ClientState::Established {
                                session_id: message.session,
                                router_capabilities,
                            },
                            listener: ProtocolMessageListener::new(),
                        },
                    ),
                )
            },
        }
    }
}

/// A GOODBYE message that comes while the client is not established is left to whoever expects it.
pub proof fn lemma_expected_goodbye_left(
    state: ProtocolMessageListenerState,
    stopped: bool,
    progress: Progress,
    received: ReceivedModel,
    client_state: ClientState,
    task: u64,
)
    requires
        !(client_state is Established),
    ensures
        protocol_turn(state, stopped, progress, received, client_state, task).received.goodbye
            == received.goodbye,
{
}

/// The listener finishes by itself in one way only: the transport has been closed. It begins to
/// close the transport only when all other tasks are stopped.
pub proof fn lemma_finishes_with_transport_closed(
    state: ProtocolMessageListenerState,
    progress: Progress,
    received: ReceivedModel,
    client_state: ClientState,
    task: u64,
)
    ensures
        ({
            let turn = protocol_turn(state, false, progress, received, client_state, task);
            &&& turn.step is Finished ==> state is CloseTransport && progress is Ready
            &&& turn.state is CloseTransport && !(state is CloseTransport) ==> turn.step
                is StopTasksAndClose
        }),
{
}

} // verus!
