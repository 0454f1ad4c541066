//! Closing.

use vstd::prelude::*;

use crate::client::futures::{
    check_for_timeout_or_error, FutureError, QueueStage, QueueStep, QueuedModel, QueuedSend,
    SinkPoll,
};
use crate::client::ClientState;
use crate::pollable::Poll;
use crate::proto::{empty_dict, TxMessage, TxModel};
use crate::received::{ReceivedModel, ReceivedValues};
use crate::uri::Uri;

verus! {

/// The clean closing of a connection: a GOODBYE message is sent, and one is waited for.
#[derive(Debug)]
pub struct CloseFuture {
    /// The sending of the GOODBYE message.
    pub send: QueuedSend,
}

/// What waiting for the acknowledgement comes to, after the time and the errors of the transport
/// have been looked at: `middle` is what was buffered then.
pub open spec fn acknowledgement_polled(
    middle: ReceivedModel,
    after: ReceivedModel,
    states: (ClientState, ClientState),
    task: u64,
    polled: Poll<Result<(), FutureError>>,
) -> bool {
    if middle.goodbye.items.len() > 0 {
        &&& polled == Poll::Ready(Ok::<(), FutureError>(()))
        &&& after == (ReceivedModel { goodbye: middle.goodbye.taken(0), ..middle })
        &&& states.1 == ClientState::Closed
    } else {
        &&& polled is Pending
        &&& after == (ReceivedModel { goodbye: middle.goodbye.awaited_by(task), ..middle })
        &&& states.1 == states.0
    }
}

impl CloseFuture {
    /// Begins to close the connection.
    pub fn new(reason: Uri) -> (future: Self)
        ensures
            future.send@ == (QueuedModel {
                stage: QueueStage::StartSend,
                message: Some(TxModel::Goodbye { details: Map::empty(), reason: reason@ }),
            }),
    {
        let details = empty_dict();
        CloseFuture { send: QueuedSend::new(TxMessage::Goodbye { details, reason }) }
    }

    /// Goes on with sending after the transport has answered, unless the time is up or the
    /// transport has failed.
    pub fn poll_sink(
        &mut self,
        timed_out: bool,
        received: &mut ReceivedValues,
        task: u64,
        polled: SinkPoll,
    ) -> (step: QueueStep)
        ensures
            final(received)@ == crate::client::futures::after_check(
                timed_out,
                old(received)@,
                task,
            ),
            match crate::client::futures::timeout_or_error(timed_out, old(received)@) {
                Some(expected) => {
                    &&& step matches QueueStep::Failed(error)
                    &&& error@ == expected
                    &&& final(self).send@ == old(self).send@
                },
                None => {
                    &&& final(self).send@ == crate::client::futures::queued_step(
                        old(self).send@,
                        polled,
                    )
                    &&& crate::client::futures::step_follows(old(self).send@.stage, polled, step)
                },
            },
    {
        match check_for_timeout_or_error(timed_out, received, task) {
            Err(error) => QueueStep::Failed(error),
            Ok(()) => self.send.sink_polled(polled),
        }
    }

    /// Waits for the GOODBYE message from the router, once ours has been sent, unless the time is
    /// up or the transport has failed. With it the client is closed.
    pub fn poll_goodbye(
        &self,
        timed_out: bool,
        received: &mut ReceivedValues,
        client_state: &mut ClientState,
        task: u64,
    ) -> (polled: Poll<Result<(), FutureError>>)
        requires
            self.send@.stage is Sent,
        ensures
            match crate::client::futures::timeout_or_error(timed_out, old(received)@) {
                Some(expected) => {
                    &&& polled matches Poll::Ready(Err(error))
                    &&& error@ == expected
                    &&& final(received)@ == crate::client::futures::after_check(
                        timed_out,
                        old(received)@,
                        task,
                    )
                    &&& *final(client_state) == *old(client_state)
                },
                None => acknowledgement_polled(
                    crate::client::futures::after_check(timed_out, old(received)@, task),
                    final(received)@,
                    (*old(client_state), *final(client_state)),
                    task,
                    polled,
                ),
            },
    {
        match check_for_timeout_or_error(timed_out, received, task) {
            Err(error) => return Poll::Ready(Err(error)),
            Ok(()) => {},
        }
        match received.goodbye.poll_take_any(task) {
            Poll::Ready(_) => {
                *client_state = ClientState::Closed;
                Poll::Ready(Ok(()))
            },
            Poll::Pending => Poll::Pending,
        }
    }
}

} // verus!
