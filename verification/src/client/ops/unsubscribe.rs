//! Unsubscribing.

use vstd::prelude::*;

use crate::buffer::{BufferModel, ErrorsModel, MessageBuffer};
use crate::client::ops::{
    await_reply, poll_either, refused, report_error, Accepted, Either, SendModel, SendOp, SendStage,
    Watch,
};
use crate::client::task_tracker::{ClientTaskTracker, TrackerModel};
use crate::client::SubscriptionStream;
use crate::error::{WampError, WampErrorModel};
use crate::id::{Id, RouterScope, SessionIdSource, SessionScope};
use crate::pollable::{Poll, PollableSetModel};
use crate::proto::rx;
use crate::proto::{TxMessage, TxModel};

verus! {

/// What UNSUBSCRIBE messages are called in errors.
pub const MESSAGE_TYPE: &'static str = "UNSUBSCRIBE";

/// The sending of an UNSUBSCRIBE message, at its beginning.
pub open spec fn unsubscribe_send(subscription: u64, request: u64) -> SendModel {
    SendModel {
        accepted: Accepted::Established,
        message_type: MESSAGE_TYPE@,
        flush_type: MESSAGE_TYPE@,
        message: Some(TxModel::Unsubscribe { request, subscription }),
        stage: SendStage::WaitReady,
    }
}

/// The cancelling of a subscription.
#[derive(Debug)]
pub struct UnsubscribeOp {
    /// The ID of the request.
    pub request: Id<SessionScope>,
    /// The ID of the subscription.
    pub subscription: Id<RouterScope>,
    /// The sending of the UNSUBSCRIBE message.
    pub send: SendOp,
}

/// Of a buffer nothing has changed but the UNSUBSCRIBED messages, the errors of unsubscribing and
/// the event queues, which are now `event`.
pub open spec fn only_unsubscribing_changed(
    before: BufferModel,
    after: BufferModel,
    event: Map<u64, PollableSetModel<rx::Event>>,
) -> bool {
    after == (BufferModel {
        unsubscribed: after.unsubscribed,
        errors: ErrorsModel { unsubscribe: after.errors.unsubscribe, ..before.errors },
        event,
        ..before
    })
}

/// The UNSUBSCRIBED message has been found. `unsubscribed` and `errors` are the messages before and
/// after.
pub open spec fn unsubscribed_found(
    unsubscribed: (PollableSetModel<rx::Unsubscribed>, PollableSetModel<rx::Unsubscribed>),
    errors: (PollableSetModel<rx::Error>, PollableSetModel<rx::Error>),
    request: u64,
    task: u64,
    error_first: bool,
    message: rx::Unsubscribed,
) -> bool {
    if error_first {
        crate::client::ops::either_polled(
            errors,
            unsubscribed,
            request,
            task,
            Either::Second(message),
        )
    } else {
        crate::client::ops::either_polled(
            unsubscribed,
            errors,
            request,
            task,
            Either::First(message),
        )
    }
}

/// The ERROR message has been found. `unsubscribed` and `errors` are the messages before and after.
pub open spec fn error_found(
    unsubscribed: (PollableSetModel<rx::Unsubscribed>, PollableSetModel<rx::Unsubscribed>),
    errors: (PollableSetModel<rx::Error>, PollableSetModel<rx::Error>),
    request: u64,
    task: u64,
    error_first: bool,
    message: rx::Error,
) -> bool {
    if error_first {
        crate::client::ops::either_polled(
            errors,
            unsubscribed,
            request,
            task,
            Either::First(message),
        )
    } else {
        crate::client::ops::either_polled(
            unsubscribed,
            errors,
            request,
            task,
            Either::Second(message),
        )
    }
}

/// An ERROR message has been found, and is reported as `error`.
pub open spec fn error_reported(
    unsubscribed: (PollableSetModel<rx::Unsubscribed>, PollableSetModel<rx::Unsubscribed>),
    errors: (PollableSetModel<rx::Error>, PollableSetModel<rx::Error>),
    request: u64,
    task: u64,
    error_first: bool,
    error: WampErrorModel,
) -> bool {
    exists|message: rx::Error| #[trigger]
        error_found(unsubscribed, errors, request, task, error_first, message) && error
            == crate::client::ops::received_error(message)
}

/// No reply has been found. `unsubscribed` and `errors` are the messages before and after.
pub open spec fn none_found(
    unsubscribed: (PollableSetModel<rx::Unsubscribed>, PollableSetModel<rx::Unsubscribed>),
    errors: (PollableSetModel<rx::Error>, PollableSetModel<rx::Error>),
    request: u64,
    task: u64,
    error_first: bool,
) -> bool {
    if error_first {
        crate::client::ops::either_polled(errors, unsubscribed, request, task, Either::Neither)
    } else {
        crate::client::ops::either_polled(unsubscribed, errors, request, task, Either::Neither)
    }
}

/// What looking for the reply to a request to unsubscribe comes to, while the session is
/// established: with an UNSUBSCRIBED message the queue of events is dropped and the task of the
/// subscription is stopped; an ERROR message leaves both. A reply that is there counts even if the
/// time is up.
pub open spec fn unsubscribed_polled(
    request: u64,
    subscription: u64,
    watch: Watch,
    buffers: (BufferModel, BufferModel),
    trackers: (TrackerModel, TrackerModel),
    task: u64,
    error_first: bool,
    polled: Poll<Result<Option<u64>, WampError>>,
) -> bool {
    let unsubscribed = (buffers.0.unsubscribed, buffers.1.unsubscribed);
    let errors = (buffers.0.errors.unsubscribe, buffers.1.errors.unsubscribe);
    match crate::client::ops::refusal(Accepted::Established, watch.state) {
        Some(error) => (polled matches Poll::Ready(Err(e)) && e@ == error) && buffers.1
            == buffers.0 && trackers.1 == trackers.0,
        None => match polled {
            Poll::Ready(Ok(signal)) => {
                &&& only_unsubscribing_changed(
                    buffers.0,
                    buffers.1,
                    buffers.0.event.remove(subscription),
                )
                &&& crate::client::task_tracker::subscription_dropped(
                    trackers.0,
                    trackers.1,
                    subscription,
                    signal,
                )
                &&& exists|message: rx::Unsubscribed| #[trigger]
                    unsubscribed_found(unsubscribed, errors, request, task, error_first, message)
            },
            Poll::Ready(Err(error)) => {
                &&& only_unsubscribing_changed(buffers.0, buffers.1, buffers.0.event)
                &&& trackers.1 == trackers.0
                &&& if error@ is Timeout {
                    watch.timed_out && none_found(unsubscribed, errors, request, task, error_first)
                } else {
                    error_reported(unsubscribed, errors, request, task, error_first, error@)
                }
            },
            Poll::Pending => {
                &&& only_unsubscribing_changed(buffers.0, buffers.1, buffers.0.event)
                &&& trackers.1 == trackers.0
                &&& !watch.timed_out
                &&& none_found(unsubscribed, errors, request, task, error_first)
            },
        },
    }
}

impl UnsubscribeOp {
    /// Begins to cancel a subscription; the sink has to become ready first.
    pub fn new<S: SubscriptionStream>(subscription: &S, ids: &mut SessionIdSource) -> (op: Self)
        ensures
            final(ids)@ == crate::id::session_successor(old(ids)@),
            op.request@ == old(ids)@,
            op.subscription@ == subscription.subscription_model(),
            op.send@ == unsubscribe_send(subscription.subscription_model(), old(ids)@ as u64),
    {
        let request = Id::<SessionScope>::next(ids);
        let id = subscription.get_subscription_id();
        let unsubscribe = TxMessage::Unsubscribe { request, subscription: id };
        UnsubscribeOp {
            request,
            subscription: id,
            send: SendOp::new(unsubscribe, Accepted::Established, MESSAGE_TYPE, MESSAGE_TYPE),
        }
    }

    fn finish(&self, received: &mut MessageBuffer, task_tracker: &mut ClientTaskTracker) -> (signal:
        Option<u64>)
        ensures
            final(received)@ == (BufferModel {
                event: old(received)@.event.remove(self.subscription@),
                ..old(received)@
            }),
            crate::client::task_tracker::subscription_dropped(
                old(task_tracker)@,
                final(task_tracker)@,
                self.subscription@,
                signal,
            ),
    {
        received.remove_event_queue(self.subscription.raw_value());
        task_tracker.stop_subscription(self.subscription)
    }

    /// Takes the reply, of the one kind or the other.
    fn find(&self, received: &mut MessageBuffer, task: u64, error_first: bool) -> (found: Either<
        rx::Unsubscribed,
        rx::Error,
    >)
        ensures
            only_unsubscribing_changed(old(received)@, final(received)@, old(received)@.event),
            ({
                let unsubscribed = (old(received)@.unsubscribed, final(received)@.unsubscribed);
                let errors = (
                    old(received)@.errors.unsubscribe,
                    final(received)@.errors.unsubscribe,
                );
                match found {
                    Either::First(message) => unsubscribed_found(
                        unsubscribed,
                        errors,
                        self.request@,
                        task,
                        error_first,
                        message,
                    ),
                    Either::Second(message) => error_found(
                        unsubscribed,
                        errors,
                        self.request@,
                        task,
                        error_first,
                        message,
                    ),
                    Either::Neither => none_found(
                        unsubscribed,
                        errors,
                        self.request@,
                        task,
                        error_first,
                    ),
                }
            }),
    {
        if error_first {
            match poll_either(
                &mut received.errors.unsubscribe,
                &mut received.unsubscribed,
                self.request,
                task,
            ) {
                Either::First(message) => Either::Second(message),
                Either::Second(message) => Either::First(message),
                Either::Neither => Either::Neither,
            }
        } else {
            poll_either(
                &mut received.unsubscribed,
                &mut received.errors.unsubscribe,
                self.request,
                task,
            )
        }
    }

    /// Looks for the reply, once the message has been sent. The signal by which the subscription is
    /// stopped comes out with success. `error_first` says whether an ERROR message is looked for
    /// before an UNSUBSCRIBED message.
    pub fn poll_reply(
        &self,
        watch: Watch,
        received: &mut MessageBuffer,
        task_tracker: &mut ClientTaskTracker,
        task: u64,
        error_first: bool,
    ) -> (polled: Poll<Result<Option<u64>, WampError>>)
        requires
            self.send@.stage is Sent,
        ensures
            unsubscribed_polled(
                self.request@,
                self.subscription@,
                watch,
                (old(received)@, final(received)@),
                (old(task_tracker)@, final(task_tracker)@),
                task,
                error_first,
                polled,
            ),
    {
        if let Some(error) = refused(Accepted::Established, watch.state) {
            return Poll::Ready(Err(error));
        }
        match self.find(received, task, error_first) {
            Either::First(message) => {
                let signal = self.finish(received, task_tracker);
                assert(unsubscribed_found(
                    (old(received)@.unsubscribed, received@.unsubscribed),
                    (old(received)@.errors.unsubscribe, received@.errors.unsubscribe),
                    self.request@,
                    task,
                    error_first,
                    message,
                ));
                Poll::Ready(Ok(signal))
            },
            Either::Second(message) => Poll::Ready(Err(report_error(message))),
            Either::Neither => await_reply(watch),
        }
    }
}

} // verus!
