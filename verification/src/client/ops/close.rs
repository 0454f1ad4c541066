//! Closing.

use vstd::prelude::*;

use crate::buffer::{BufferModel, MessageBuffer};
use crate::client::ops::{interrupted, Accepted, SendModel, SendOp, SendStage, SendStep, Watch};
use crate::client::ClientState;
use crate::error::WampError;
use crate::pollable::Poll;
use crate::proto::{empty_dict, TxMessage, TxModel};
use crate::uri::Uri;

verus! {

/// What GOODBYE messages are called in errors.
pub const MESSAGE_TYPE: &'static str = "GOODBYE";

/// What GOODBYE messages are called in errors of flushing.
pub const FLUSH_TYPE: &'static str = "GOODBYE (flush)";

/// The sending of a GOODBYE message, at its beginning.
pub open spec fn goodbye_send(reason: Seq<char>) -> SendModel {
    SendModel {
        accepted: Accepted::ShuttingDown,
        message_type: MESSAGE_TYPE@,
        flush_type: FLUSH_TYPE@,
        message: Some(TxModel::Goodbye { details: Map::empty(), reason }),
        stage: SendStage::WaitReady,
    }
}

/// The clean closing of a connection.
#[derive(Debug)]
pub struct CloseOp {
    /// The sending of the GOODBYE message.
    pub send: SendOp,
}

/// What is watched while the connection is closed: once a GOODBYE message has come, neither the
/// state of the client nor the clock ends the closing any more.
pub open spec fn closing_watched(watch: Watch, buffer: BufferModel) -> Watch {
    if buffer.goodbye.items.len() > 0 {
        Watch { state: ClientState::ShuttingDown, timed_out: false }
    } else {
        watch
    }
}

/// Tells what is to be watched while the connection is closed.
pub fn closing_watch(watch: Watch, received: &MessageBuffer) -> (closing: Watch)
    ensures
        closing == closing_watched(watch, received@),
{
    if received.goodbye.is_empty() {
        watch
    } else {
        Watch { state: ClientState::ShuttingDown, timed_out: false }
    }
}

/// What looking for the acknowledgement comes to: the first GOODBYE message, whatever it says, is
/// taken as such, in whatever state the client is and even if the time is up. Without one, the state
/// and the clock may end the waiting.
pub open spec fn goodbye_polled(
    watch: Watch,
    buffers: (BufferModel, BufferModel),
    task: u64,
    polled: Poll<Result<(), WampError>>,
) -> bool {
    let goodbye = buffers.0.goodbye;
    if goodbye.items.len() > 0 {
        &&& polled == Poll::Ready(Ok::<(), WampError>(()))
        &&& buffers.1 == (BufferModel { goodbye: goodbye.taken(0), ..buffers.0 })
    } else {
        &&& match crate::client::ops::interruption(Accepted::ShuttingDown, watch) {
            Some(error) => polled matches Poll::Ready(Err(e)) && e@ == error,
            None => polled is Pending,
        }
        &&& buffers.1 == (BufferModel { goodbye: goodbye.awaited_by(task), ..buffers.0 })
    }
}

impl CloseOp {
    /// Begins to close the connection; the sink has to become ready first.
    pub fn new(reason: Uri) -> (op: Self)
        ensures
            op.send@ == goodbye_send(reason@),
    {
        let details = empty_dict();
        let goodbye = TxMessage::Goodbye { details, reason };
        CloseOp {
            send: SendOp::new(goodbye, Accepted::ShuttingDown, MESSAGE_TYPE, FLUSH_TYPE),
        }
    }

    /// Goes on with sending after the sink has done what it was to do, or failed to.
    pub fn advance(
        &mut self,
        watch: Watch,
        outcome: Result<(), String>,
        received: &MessageBuffer,
    ) -> (step: SendStep)
        ensures
            (final(self).send@, step@) == crate::client::ops::sent_step(
                old(self).send@,
                closing_watched(watch, received@),
                crate::client::ops::outcome_model(outcome),
            ),
    {
        self.send.advance(closing_watch(watch, received), outcome)
    }

    /// Looks for the GOODBYE message that confirms the disconnect, once ours has been sent.
    pub fn poll_goodbye(&self, watch: Watch, received: &mut MessageBuffer, task: u64) -> (polled:
        Poll<Result<(), WampError>>)
        requires
            self.send@.stage is Sent,
        ensures
            goodbye_polled(watch, (old(received)@, final(received)@), task, polled),
    {
        match received.goodbye.poll_take_any(task) {
            Poll::Ready(_) => Poll::Ready(Ok(())),
            Poll::Pending => match interrupted(Accepted::ShuttingDown, watch) {
                Some(error) => Poll::Ready(Err(error)),
                None => Poll::Pending,
            },
        }
    }
}

} // verus!
