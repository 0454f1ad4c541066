//! The operations of a client.
//!
//! An operation is a machine that says what has to be done with the sink next, and is told how that
//! went. While it runs, the client state and the clock are watched: each turn is told what they
//! are, and an operation ends with an error when the state is not one that it can run in, or when
//! its time is up.

use vstd::prelude::*;

use crate::client::{ClientConfig, ClientState, Duration};
use crate::error::{WampError, WampErrorModel};
use crate::id::{Id, SessionScope};
use crate::pollable::{Poll, PollableSet, PollableSetModel};
use crate::proto::rx;
use crate::proto::{TxMessage, TxModel};

pub mod close;
pub mod initialize;
pub mod publish;
pub mod subscribe;
pub mod unsubscribe;

verus! {

/// What is watched while an operation runs.
#[derive(Debug, Clone, Copy)]
pub struct Watch {
    /// The state of the client.
    pub state: ClientState,
    /// Whether the time for the operation is up.
    pub timed_out: bool,
}

/// The client states that an operation can run in.
#[derive(Debug, Clone, Copy, Eq, PartialEq, Structural)]
pub enum Accepted {
    /// Only an established session.
    Established,
    /// The states after the client initiated the termination of the connection.
    ShuttingDown,
}

/// Whether an operation can run in a state.
pub open spec fn accepts(accepted: Accepted, state: ClientState) -> bool {
    match accepted {
        Accepted::Established => state is Established,
        Accepted::ShuttingDown => state is ShuttingDown || state is Closed,
    }
}

/// The error that ends an operation because of the state of the client.
pub open spec fn refusal(accepted: Accepted, state: ClientState) -> Option<WampErrorModel> {
    if accepts(accepted, state) {
        None
    } else {
        Some(WampErrorModel::ClientStateChanged(crate::client::state_name(state)))
    }
}

/// The error that ends an operation because of the state of the client, or because its time is up.
pub open spec fn interruption(accepted: Accepted, watch: Watch) -> Option<WampErrorModel> {
    match refusal(accepted, watch.state) {
        Some(error) => Some(error),
        None => if watch.timed_out {
            Some(WampErrorModel::Timeout)
        } else {
            None
        },
    }
}

/// What an optional error says.
pub open spec fn error_model(error: Option<WampError>) -> Option<WampErrorModel> {
    match error {
        Some(error) => Some(error@),
        None => None,
    }
}

/// Tells whether an operation has to end because of the state of the client, and with which error.
pub fn refused(accepted: Accepted, state: ClientState) -> (error: Option<WampError>)
    ensures
        error_model(error) == refusal(accepted, state),
{
    let ok: bool = match accepted {
        Accepted::Established => state.is_established(),
        Accepted::ShuttingDown => match state {
            ClientState::ShuttingDown => true,
            ClientState::Closed => true,
            _ => false,
        },
    };
    if ok {
        None
    } else {
        Some(WampError::ClientStateChanged(state.get_name()))
    }
}

/// Tells whether an operation has to end, and with which error.
pub fn interrupted(accepted: Accepted, watch: Watch) -> (error: Option<WampError>)
    ensures
        error_model(error) == interruption(accepted, watch),
{
    match refused(accepted, watch.state) {
        Some(error) => Some(error),
        None => if watch.timed_out {
            Some(WampError::Timeout)
        } else {
            None
        },
    }
}

/// What waiting comes to where no reply is there: the operation ends when its time is up, and goes
/// on waiting otherwise.
pub open spec fn ended_by_clock<T>(watch: Watch, polled: Poll<Result<T, WampError>>) -> bool {
    if watch.timed_out {
        polled matches Poll::Ready(Err(error)) && error@ == WampErrorModel::Timeout
    } else {
        polled is Pending
    }
}

/// Goes on waiting for a reply that is not there, unless the time is up.
pub fn await_reply<T>(watch: Watch) -> (polled: Poll<Result<T, WampError>>)
    ensures
        ended_by_clock(watch, polled),
{
    if watch.timed_out {
        Poll::Ready(Err(WampError::Timeout))
    } else {
        Poll::Pending
    }
}

/// How long an operation may take: the timeout for requests limits those that need an established
/// session, and the timeout for shutting down limits the closing of the connection.
pub fn time_limit(config: &ClientConfig, accepted: Accepted) -> (limit: Duration)
    ensures
        limit == (match accepted {
            Accepted::Established => config.timeout,
            Accepted::ShuttingDown => config.shutdown_timeout,
        }),
{
    match accepted {
        Accepted::Established => config.timeout,
        Accepted::ShuttingDown => config.shutdown_timeout,
    }
}

/// How far an operation is with sending.
#[derive(Debug, Clone, Copy, Eq, PartialEq, Structural)]
pub enum SendStage {
    /// The sink is to become ready.
    WaitReady,
    /// The sink has been given a message.
    Sending,
    /// The sink is to be flushed.
    Flushing,
    /// Everything has been sent.
    Sent,
}

/// What an operation has to have done next.
#[derive(Debug)]
pub enum SendStep {
    /// Wait until the sink is ready to send.
    WaitReady,
    /// Give the sink this message.
    Send(TxMessage),
    /// Flush the sink.
    Flush,
    /// Nothing: everything has been sent.
    Sent,
    /// Nothing: the operation has failed.
    Failed(WampError),
}

/// What a [`SendStep`] is, apart from how it is stored.
#[verifier::ext_equal]
pub enum SendStepModel {
    /// See [`SendStep::WaitReady`].
    WaitReady,
    /// See [`SendStep::Send`].
    Send(TxModel),
    /// See [`SendStep::Flush`].
    Flush,
    /// See [`SendStep::Sent`].
    Sent,
    /// See [`SendStep::Failed`].
    Failed(WampErrorModel),
}

impl View for SendStep {
    type V = SendStepModel;

    open spec fn view(&self) -> SendStepModel {
        match self {
            SendStep::WaitReady => SendStepModel::WaitReady,
            SendStep::Send(message) => SendStepModel::Send(message@),
            SendStep::Flush => SendStepModel::Flush,
            SendStep::Sent => SendStepModel::Sent,
            SendStep::Failed(error) => SendStepModel::Failed(error@),
        }
    }
}

/// What a [`SendOp`] is about.
#[verifier::ext_equal]
pub struct SendModel {
    /// The states that the operation can run in.
    pub accepted: Accepted,
    /// What the message is called in errors.
    pub message_type: Seq<char>,
    /// What the message is called in errors of flushing.
    pub flush_type: Seq<char>,
    /// The message, until it has been sent.
    pub message: Option<TxModel>,
    /// How far the operation is.
    pub stage: SendStage,
}

/// The sending of one message.
#[derive(Debug)]
pub struct SendOp {
    accepted: Accepted,
    message_type: &'static str,
    flush_type: &'static str,
    state: SendState,
}

/// How far the sending of one message is, with the message while it has not been sent.
#[derive(Debug)]
enum SendState {
    WaitReady(TxMessage),
    Sending,
    Flushing,
    Sent,
}

impl View for SendOp {
    type V = SendModel;

    closed spec fn view(&self) -> SendModel {
        let (stage, message) = match self.state {
            SendState::WaitReady(message) => (SendStage::WaitReady, Some(message@)),
            SendState::Sending => (SendStage::Sending, None),
            SendState::Flushing => (SendStage::Flushing, None),
            SendState::Sent => (SendStage::Sent, None),
        };
        SendModel {
            accepted: self.accepted,
            message_type: self.message_type@,
            flush_type: self.flush_type@,
            message,
            stage,
        }
    }
}

/// The error that a failure of the sink is reported as, by how far the operation was.
pub open spec fn sink_error(
    stage: SendStage,
    message_type: Seq<char>,
    flush_type: Seq<char>,
    error: Seq<char>,
) -> WampErrorModel {
    match stage {
        SendStage::WaitReady => WampErrorModel::WaitForReadyToSendFailed { message_type, error },
        SendStage::Sending => WampErrorModel::MessageSendFailed { message_type, error },
        _ => WampErrorModel::SinkFlushFailed { message_type: flush_type, error },
    }
}

/// Reports a failure of the sink.
pub fn report_sink_error(
    stage: SendStage,
    message_type: &'static str,
    flush_type: &'static str,
    error: String,
) -> (reported: WampError)
    ensures
        reported@ == sink_error(stage, message_type@, flush_type@, error@),
{
    match stage {
        SendStage::WaitReady => WampError::WaitForReadyToSendFailed { message_type, error },
        SendStage::Sending => WampError::MessageSendFailed { message_type, error },
        _ => WampError::SinkFlushFailed { message_type: flush_type, error },
    }
}

/// What an operation does after the sink has done what it was to do, or failed to: the message is
/// sent when the sink is ready, and the sink is flushed when the message has been sent. Failures
/// and interruptions end it.
pub open spec fn sent_step(op: SendModel, watch: Watch, outcome: Result<(), Seq<char>>) -> (
    SendModel,
    SendStepModel,
) {
    match interruption(op.accepted, watch) {
        Some(error) => (op, SendStepModel::Failed(error)),
        None => if op.stage is Sent {
            (op, SendStepModel::Sent)
        } else {
            match (outcome, op.stage) {
                (Err(error), _) => (
                    op,
                    SendStepModel::Failed(
                        sink_error(op.stage, op.message_type, op.flush_type, error),
                    ),
                ),
                (Ok(()), SendStage::WaitReady) => (
                    SendModel { message: None, stage: SendStage::Sending, ..op },
                    SendStepModel::Send(op.message->Some_0),
                ),
                (Ok(()), SendStage::Flushing) => (
                    SendModel { stage: SendStage::Sent, ..op },
                    SendStepModel::Sent,
                ),
                (Ok(()), _) => (
                    SendModel { stage: SendStage::Flushing, ..op },
                    SendStepModel::Flush,
                ),
            }
        },
    }
}

/// How what the sink was to do went, with the text of its error.
pub open spec fn outcome_model(outcome: Result<(), String>) -> Result<(), Seq<char>> {
    match outcome {
        Ok(()) => Ok(()),
        Err(error) => Err(error@),
    }
}

impl SendOp {
    /// Begins to send a message: the sink has to become ready first.
    pub fn new(
        message: TxMessage,
        accepted: Accepted,
        message_type: &'static str,
        flush_type: &'static str,
    ) -> (op: Self)
        ensures
            op@ == (SendModel {
                accepted,
                message_type: message_type@,
                flush_type: flush_type@,
                message: Some(message@),
                stage: SendStage::WaitReady,
            }),
    {
        SendOp { accepted, message_type, flush_type, state: SendState::WaitReady(message) }
    }

    /// Goes on after the sink has done what it was to do, or failed to.
    pub fn advance(&mut self, watch: Watch, outcome: Result<(), String>) -> (step: SendStep)
        ensures
            (final(self)@, step@) == sent_step(old(self)@, watch, outcome_model(outcome)),
    {
        if let Some(error) = interrupted(self.accepted, watch) {
            return SendStep::Failed(error);
        }
        if let SendStage::Sent = self.stage() {
            return SendStep::Sent;
        }
        if let Err(error) = outcome {
            return SendStep::Failed(
                report_sink_error(self.stage(), self.message_type, self.flush_type, error),
            );
        }
        let mut state = SendState::Sending;
        std::mem::swap(&mut state, &mut self.state);
        match state {
            SendState::WaitReady(message) => SendStep::Send(message),
            SendState::Sending => {
                self.state = SendState::Flushing;
                SendStep::Flush
            },
            _ => {
                self.state = SendState::Sent;
                SendStep::Sent
            },
        }
    }

    /// How far the operation is.
    pub fn stage(&self) -> (stage: SendStage)
        ensures
            stage == self@.stage,
    {
        match self.state {
            SendState::WaitReady(_) => SendStage::WaitReady,
            SendState::Sending => SendStage::Sending,
            SendState::Flushing => SendStage::Flushing,
            SendState::Sent => SendStage::Sent,
        }
    }
}

/// A message that answers a request.
pub trait Reply {
    /// The raw ID of the request.
    spec fn request_model(&self) -> u64;

    /// The ID of the request.
    fn request_id(&self) -> (request: Id<SessionScope>)
        ensures
            request@ == self.request_model(),
    ;
}

impl Reply for rx::Published {
    open spec fn request_model(&self) -> u64 {
        self.request@
    }

    fn request_id(&self) -> (request: Id<SessionScope>) {
        self.request
    }
}

impl Reply for rx::Subscribed {
    open spec fn request_model(&self) -> u64 {
        self.request@
    }

    fn request_id(&self) -> (request: Id<SessionScope>) {
        self.request
    }
}

impl Reply for rx::Unsubscribed {
    open spec fn request_model(&self) -> u64 {
        self.request@
    }

    fn request_id(&self) -> (request: Id<SessionScope>) {
        self.request
    }
}

impl Reply for rx::Error {
    open spec fn request_model(&self) -> u64 {
        self.request@
    }

    fn request_id(&self) -> (request: Id<SessionScope>) {
        self.request
    }
}

/// The item at `i` is the first that answers the request.
pub open spec fn first_reply<R: Reply>(items: Seq<R>, i: int, request: u64) -> bool {
    &&& 0 <= i < items.len()
    &&& items[i].request_model() == request
    &&& forall|j: int| #![trigger items[j]] 0 <= j < i ==> items[j].request_model() != request
}

/// No item answers the request.
pub open spec fn unanswered<R: Reply>(items: Seq<R>, request: u64) -> bool {
    forall|j: int| #![trigger items[j]] 0 <= j < items.len() ==> items[j].request_model() != request
}

/// The first item that answers the request, `reply`, has been taken out.
pub open spec fn reply_taken<R: Reply>(
    before: PollableSetModel<R>,
    after: PollableSetModel<R>,
    request: u64,
    reply: R,
) -> bool {
    exists|i: int|
        #![trigger before.items[i]]
        first_reply(before.items, i, request) && reply == before.items[i] && after == before.taken(
            i,
        )
}

/// No item answers the request, and the task has asked to be notified.
pub open spec fn reply_awaited<R: Reply>(
    before: PollableSetModel<R>,
    after: PollableSetModel<R>,
    request: u64,
    task: u64,
) -> bool {
    unanswered(before.items, request) && after == before.awaited_by(task)
}

/// Takes the first message that answers a request.
pub fn poll_reply<R: Reply>(
    set: &mut PollableSet<R>,
    request: Id<SessionScope>,
    task: u64,
) -> (reply: Poll<R>)
    ensures
        match reply {
            Poll::Ready(reply) => reply_taken(old(set)@, final(set)@, request@, reply),
            Poll::Pending => reply_awaited(old(set)@, final(set)@, request@, task),
        },
{
    let answers = |message: &R| -> (wanted: bool)
        ensures
            wanted == (message.request_model() == request@),
        { message.request_id() == request };
    let ghost before = set@;
    let polled = set.poll_take(task, answers);
    proof {
        if polled is Ready {
            let i = choose|i: int|
                #![trigger before.items[i]]
                crate::pollable::picks(answers, before.items, i) && polled->Ready_0
                    == before.items[i] && set@ == before.taken(i);
            assert forall|j: int|
                #![trigger before.items[j]]
                0 <= j < i implies before.items[j].request_model() != request@ by {
                assert(call_ensures(answers, (&before.items[j],), false));
            }
            assert(first_reply(before.items, i, request@));
        } else {
            assert forall|j: int|
                #![trigger before.items[j]]
                0 <= j < before.items.len() implies before.items[j].request_model() != request@ by {
                assert(call_ensures(answers, (&before.items[j],), false));
            }
        }
    }
    polled
}

/// Which of two sets a message came from.
#[derive(Debug)]
pub enum Either<A, B> {
    /// The first.
    First(A),
    /// The second.
    Second(B),
    /// None.
    Neither,
}

/// Two sets have been polled for a reply: the second one only where the first had none.
pub open spec fn either_polled<A: Reply, B: Reply>(
    first: (PollableSetModel<A>, PollableSetModel<A>),
    second: (PollableSetModel<B>, PollableSetModel<B>),
    request: u64,
    task: u64,
    polled: Either<A, B>,
) -> bool {
    match polled {
        Either::First(reply) => reply_taken(first.0, first.1, request, reply) && second.1
            == second.0,
        Either::Second(reply) => reply_awaited(first.0, first.1, request, task) && reply_taken(
            second.0,
            second.1,
            request,
            reply,
        ),
        Either::Neither => reply_awaited(first.0, first.1, request, task) && reply_awaited(
            second.0,
            second.1,
            request,
            task,
        ),
    }
}

/// Takes the first message that answers a request out of one of two sets.
pub fn poll_either<A: Reply, B: Reply>(
    first: &mut PollableSet<A>,
    second: &mut PollableSet<B>,
    request: Id<SessionScope>,
    task: u64,
) -> (polled: Either<A, B>)
    ensures
        either_polled(
            (old(first)@, final(first)@),
            (old(second)@, final(second)@),
            request@,
            task,
            polled,
        ),
{
    match poll_reply(first, request, task) {
        Poll::Ready(reply) => Either::First(reply),
        Poll::Pending => match poll_reply(second, request, task) {
            Poll::Ready(reply) => Either::Second(reply),
            Poll::Pending => Either::Neither,
        },
    }
}

/// The error that an ERROR message is reported as.
pub open spec fn received_error(error: rx::Error) -> WampErrorModel {
    WampErrorModel::ErrorReceived {
        error: error.error@,
        request_type: error.request_type,
        request_id: error.request@,
    }
}

/// Reports an ERROR message.
pub fn report_error(message: rx::Error) -> (error: WampError)
    ensures
        error@ == received_error(message),
{
    WampError::ErrorReceived {
        error: message.error,
        request_type: message.request_type,
        request_id: message.request,
    }
}

} // verus!
