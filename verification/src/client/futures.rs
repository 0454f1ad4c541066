//! Operations over a transport that listens by itself and queues what is to be sent.
//!
//! Such a transport takes a message into its queue or hands it back, and is then polled until the
//! queue is empty. An operation ends with an error when its time is up.

use vstd::prelude::*;

use crate::error::{WampError, WampErrorModel};
use crate::pollable::Poll;
use crate::proto::{TxMessage, TxModel};
use crate::received::{ReceivedModel, ReceivedValues};

pub mod close;
pub mod initialize;
pub mod laws;
pub mod subscribe;

verus! {

/// Why an operation failed.
#[derive(Debug)]
pub enum FutureError {
    /// The operation itself failed.
    Wamp(WampError),
    /// The transport failed. Holds the text of the error.
    Transport(String),
}

/// What a [`FutureError`] says, apart from how it is stored.
#[verifier::ext_equal]
pub enum FutureErrorModel {
    /// See [`FutureError::Wamp`].
    Wamp(WampErrorModel),
    /// See [`FutureError::Transport`].
    Transport(Seq<char>),
}

impl View for FutureError {
    type V = FutureErrorModel;

    open spec fn view(&self) -> FutureErrorModel {
        match self {
            FutureError::Wamp(error) => FutureErrorModel::Wamp(error@),
            FutureError::Transport(error) => FutureErrorModel::Transport(error@),
        }
    }
}

/// How far an operation is with sending its message.
#[derive(Debug, Clone, Copy, Eq, PartialEq, Structural)]
pub enum QueueStage {
    /// The message is to be taken into the queue.
    StartSend,
    /// The queue is to become empty.
    Sending,
    /// The message has been sent.
    Sent,
}

/// What a [`QueuedSend`] is about.
#[verifier::ext_equal]
pub struct QueuedModel {
    /// How far it is.
    pub stage: QueueStage,
    /// The message, while the queue does not have it.
    pub message: Option<TxModel>,
}

/// The sending of one message by way of the queue of the transport.
#[derive(Debug)]
pub struct QueuedSend {
    stage: QueueStage,
    message: Option<TxMessage>,
}

/// What an optional message says.
pub open spec fn message_model(message: Option<TxMessage>) -> Option<TxModel> {
    match message {
        Some(message) => Some(message@),
        None => None,
    }
}

impl View for QueuedSend {
    type V = QueuedModel;

    closed spec fn view(&self) -> QueuedModel {
        QueuedModel { stage: self.stage, message: message_model(self.message) }
    }
}

/// What the transport said.
#[derive(Debug)]
pub enum SinkPoll {
    /// The queue is full, or not yet empty. A message that was not taken is handed back.
    NotReady(Option<TxMessage>),
    /// The message was taken, or the queue is empty.
    Ready,
    /// The transport failed. Holds the text of the error.
    Failed(String),
}

/// What an operation does next.
#[derive(Debug)]
pub enum QueueStep {
    /// Waits to be polled again.
    Pending,
    /// Goes on at once.
    Again,
    /// Ends with an error.
    Failed(FutureError),
}

/// What an operation does after the transport has answered: each answer of success brings it one
/// stage further.
pub open spec fn queued_step(before: QueuedModel, polled: SinkPoll) -> QueuedModel {
    match (before.stage, polled) {
        (QueueStage::StartSend, SinkPoll::NotReady(message)) => QueuedModel {
            message: message_model(message),
            ..before
        },
        (QueueStage::StartSend, SinkPoll::Ready) => QueuedModel {
            stage: QueueStage::Sending,
            ..before
        },
        (QueueStage::Sending, SinkPoll::Ready) => QueuedModel {
            stage: QueueStage::Sent,
            ..before
        },
        _ => before,
    }
}

/// The answer of the transport calls for this step.
pub open spec fn step_follows(stage: QueueStage, polled: SinkPoll, step: QueueStep) -> bool {
    match (stage, polled) {
        (QueueStage::Sent, _) => step is Again,
        (_, SinkPoll::NotReady(_)) => step is Pending,
        (_, SinkPoll::Ready) => step is Again,
        (_, SinkPoll::Failed(error)) => step matches QueueStep::Failed(e) && e@
            == FutureErrorModel::Transport(error@),
    }
}

impl QueuedSend {
    /// Begins to send a message.
    pub fn new(message: TxMessage) -> (send: Self)
        ensures
            send@ == (QueuedModel { stage: QueueStage::StartSend, message: Some(message@) }),
    {
        QueuedSend { stage: QueueStage::StartSend, message: Some(message) }
    }

    /// How far it is.
    pub fn stage(&self) -> (stage: QueueStage)
        ensures
            stage == self@.stage,
    {
        self.stage
    }

    /// Gives out the message, for the queue to take.
    pub fn take_message(&mut self) -> (message: Option<TxMessage>)
        ensures
            message_model(message) == old(self)@.message,
            final(self)@ == (QueuedModel { message: None, ..old(self)@ }),
    {
        self.message.take()
    }

    /// Goes on after the transport has answered.
    pub fn sink_polled(&mut self, polled: SinkPoll) -> (step: QueueStep)
        ensures
            final(self)@ == queued_step(old(self)@, polled),
            step_follows(old(self)@.stage, polled, step),
    {
        match self.stage {
            QueueStage::StartSend => match polled {
                SinkPoll::NotReady(message) => {
                    self.message = message;
                    QueueStep::Pending
                },
                SinkPoll::Ready => {
                    self.stage = QueueStage::Sending;
                    QueueStep::Again
                },
                SinkPoll::Failed(error) => QueueStep::Failed(FutureError::Transport(error)),
            },
            QueueStage::Sending => match polled {
                SinkPoll::NotReady(_) => QueueStep::Pending,
                SinkPoll::Ready => {
                    self.stage = QueueStage::Sent;
                    QueueStep::Again
                },
                SinkPoll::Failed(error) => QueueStep::Failed(FutureError::Transport(error)),
            },
            QueueStage::Sent => QueueStep::Again,
        }
    }
}

/// Ends an operation when its time is up.
pub fn check_for_timeout(timed_out: bool) -> (result: Result<(), FutureError>)
    ensures
        match result {
            Ok(()) => !timed_out,
            Err(error) => timed_out && error@ == FutureErrorModel::Wamp(WampErrorModel::Timeout),
        },
{
    if timed_out {
        Err(FutureError::Wamp(WampError::Timeout))
    } else {
        Ok(())
    }
}

/// The error that ends an operation: its time is up, or the transport has failed.
pub open spec fn timeout_or_error(timed_out: bool, received: ReceivedModel) -> Option<
    FutureErrorModel,
> {
    if timed_out {
        Some(FutureErrorModel::Wamp(WampErrorModel::Timeout))
    } else if received.transport_errors.items.len() > 0 {
        Some(FutureErrorModel::Transport(received.transport_errors.items[0]@))
    } else {
        None
    }
}

/// What is buffered after the time and the errors of the transport have been looked at: an error of
/// the transport that ends the operation has been taken.
pub open spec fn after_check(
    timed_out: bool,
    received: ReceivedModel,
    task: u64,
) -> ReceivedModel {
    let errors = received.transport_errors;
    if timed_out {
        received
    } else if errors.items.len() > 0 {
        ReceivedModel { transport_errors: errors.taken(0), ..received }
    } else {
        ReceivedModel { transport_errors: errors.awaited_by(task), ..received }
    }
}

/// Ends an operation when its time is up, or when the transport has failed.
pub fn check_for_timeout_or_error(
    timed_out: bool,
    received: &mut ReceivedValues,
    task: u64,
) -> (result: Result<(), FutureError>)
    ensures
        final(received)@ == after_check(timed_out, old(received)@, task),
        match result {
            Ok(()) => timeout_or_error(timed_out, old(received)@) is None,
            Err(error) => timeout_or_error(timed_out, old(received)@) == Some(error@),
        },
{
    if timed_out {
        return Err(FutureError::Wamp(WampError::Timeout));
    }
    match received.transport_errors.poll_take_any(task) {
        Poll::Ready(error) => Err(FutureError::Transport(error)),
        Poll::Pending => Ok(()),
    }
}

/// While the transport takes everything, an operation needs two answers to have its message sent.
pub proof fn lemma_taken_then_sent(before: QueuedModel)
    requires
        before.stage is StartSend,
    ensures
        queued_step(queued_step(before, SinkPoll::Ready), SinkPoll::Ready).stage is Sent,
{
}

/// A message that was not taken is there to be given out again.
pub proof fn lemma_handed_back(before: QueuedModel, message: TxMessage)
    requires
        before.stage is StartSend,
    ensures
        queued_step(before, SinkPoll::NotReady(Some(message))) == (QueuedModel {
            stage: QueueStage::StartSend,
            message: Some(message@),
        }),
{
}

} // verus!
