//! What holds of the operations over a transport that listens by itself.

use vstd::prelude::*;

use crate::client::futures::initialize::{Progress, ProtocolMessageListenerState};
use crate::client::futures::subscribe::NewSubscription;
use crate::client::futures::{
    FutureError, FutureErrorModel, QueueStage, QueueStep, QueuedModel, SinkPoll,
};
use crate::client::task_tracker::TrackerModel;
use crate::client::ClientState;
use crate::error::WampErrorModel;
use crate::pollable::Poll;
use crate::proto::rx;
use crate::proto::TxMessage;
use crate::received::ReceivedModel;

verus! {

/// A message goes into the queue when the transport takes it, and is sent when the queue is empty;
/// one that is not taken is kept as it was handed back. Nothing else moves it on.
pub proof fn lemma_queue_moves_on(before: QueuedModel, polled: SinkPoll)
    ensures
        ({
            let after = crate::client::futures::queued_step(before, polled);
            match polled {
                SinkPoll::Ready => {
                    &&& after.message == before.message
                    &&& before.stage is StartSend ==> after.stage is Sending
                    &&& !(before.stage is StartSend) ==> after.stage is Sent
                },
                SinkPoll::NotReady(message) => {
                    &&& after.stage == before.stage
                    &&& before.stage is StartSend ==> match message {
                        Some(m) => after.message == Some(m@),
                        None => after.message is None,
                    }
                    &&& !(before.stage is StartSend) ==> after.message == before.message
                },
                SinkPoll::Failed(_) => after == before,
            }
        }),
{
}

/// A message that is kept is told of as it is.
pub proof fn lemma_kept_message_is_told(message: Option<TxMessage>)
    ensures
        match message {
            Some(m) => crate::client::futures::message_model(message) == Some(m@),
            None => crate::client::futures::message_model(message) is None,
        },
{
}

/// Until its message has been sent, an operation waits while the transport is not ready, goes on at
/// once when it is, and fails with the text of the transport's failure.
pub proof fn lemma_queue_step(stage: QueueStage, polled: SinkPoll, step: QueueStep)
    requires
        crate::client::futures::step_follows(stage, polled, step),
    ensures
        if stage is Sent {
            step is Again
        } else {
            match polled {
                SinkPoll::NotReady(_) => step is Pending,
                SinkPoll::Ready => step is Again,
                SinkPoll::Failed(error) => step matches QueueStep::Failed(
                    FutureError::Transport(text),
                ) && text@ == error@,
            }
        },
{
}

/// An error is told of as it is.
pub proof fn lemma_future_error_is_told(error: FutureError)
    ensures
        match error {
            FutureError::Wamp(e) => error@ == FutureErrorModel::Wamp(e@),
            FutureError::Transport(text) => error@ == FutureErrorModel::Transport(text@),
        },
{
}

/// The clock ends an operation before anything else does; otherwise the first error of the
/// transport does, and is taken. Without either the task waits for errors. Nothing else of what has
/// been received is touched.
pub proof fn lemma_clock_then_transport(timed_out: bool, received: ReceivedModel, task: u64)
    ensures
        ({
            let error = crate::client::futures::timeout_or_error(timed_out, received);
            let after = crate::client::futures::after_check(timed_out, received, task);
            let errors = received.transport_errors;
            &&& after == (ReceivedModel { transport_errors: after.transport_errors, ..received })
            &&& if timed_out {
                &&& error == Some(FutureErrorModel::Wamp(WampErrorModel::Timeout))
                &&& after == received
            } else if errors.items.len() > 0 {
                &&& error == Some(FutureErrorModel::Transport(errors.items[0]@))
                &&& after.transport_errors.items == errors.items.skip(1)
                &&& after.transport_errors.waiting == errors.waiting
            } else {
                &&& error is None
                &&& after.transport_errors.items.len() == 0
                &&& after.transport_errors.waiting.contains(task)
            }
        }),
{
    let errors = received.transport_errors;
    if errors.items.len() > 0 {
        assert(errors.items.remove(0) =~= errors.items.skip(1));
    } else {
        crate::pollable::lemma_waiting_until_insert(errors, task, task, 0, arbitrary());
    }
}

/// The first GOODBYE message is taken and closes the client; without one the client stays as it is
/// and the task waits.
pub proof fn lemma_goodbye_closes(
    middle: ReceivedModel,
    after: ReceivedModel,
    states: (ClientState, ClientState),
    task: u64,
    polled: Poll<Result<(), FutureError>>,
)
    requires
        crate::client::futures::close::acknowledgement_polled(middle, after, states, task, polled),
    ensures
        after == (ReceivedModel { goodbye: after.goodbye, ..middle }),
        if middle.goodbye.items.len() > 0 {
            &&& polled matches Poll::Ready(Ok(()))
            &&& states.1 is Closed
            &&& after.goodbye.items == middle.goodbye.items.skip(1)
            &&& after.goodbye.waiting == middle.goodbye.waiting
        } else {
            &&& polled is Pending
            &&& states.1 == states.0
            &&& after.goodbye.items.len() == 0
            &&& after.goodbye.waiting.contains(task)
        },
{
    let goodbye = middle.goodbye;
    if goodbye.items.len() > 0 {
        assert(goodbye.items.remove(0) =~= goodbye.items.skip(1));
    } else {
        crate::pollable::lemma_waiting_until_insert(goodbye, task, task, 0, arbitrary());
    }
}

/// A subscription is refused when its time is up, and then in every state but an established
/// session.
pub proof fn lemma_subscription_needs_a_session(timed_out: bool, state: ClientState)
    ensures
        crate::client::futures::subscribe::refusal(timed_out, state) == if timed_out {
            Some(FutureErrorModel::Wamp(WampErrorModel::Timeout))
        } else if !(state is Established) {
            Some(FutureErrorModel::Wamp(WampErrorModel::InvalidClientState))
        } else {
            None
        },
{
}

/// A subscription that is refused leaves everything as it is. One that is not comes out with the
/// subscription that the first SUBSCRIBED message with its request ID names, and is stopped by the
/// signal that was handed in; without such a message the task waits.
pub proof fn lemma_new_subscription_is_the_one_told(
    request: u64,
    refusal: Option<FutureErrorModel>,
    received: (ReceivedModel, ReceivedModel),
    trackers: (TrackerModel, TrackerModel),
    task: u64,
    stop_sender: u64,
    polled: Poll<Result<NewSubscription, FutureError>>,
)
    requires
        crate::client::futures::subscribe::subscription_polled(
            request,
            refusal,
            received,
            trackers,
            task,
            stop_sender,
            polled,
        ),
    ensures
        received.1 == (ReceivedModel { subscribed: received.1.subscribed, ..received.0 }),
        match (refusal, polled) {
            (Some(expected), Poll::Ready(Err(error))) => {
                &&& error@ == expected
                &&& received.1 == received.0
                &&& trackers.1 == trackers.0
            },
            (Some(_), _) => false,
            (None, Poll::Ready(Ok(new))) => exists|message: rx::Subscribed, i: int|
                {
                    &&& #[trigger] crate::client::laws::replies::taken_out(
                        received.0.subscribed,
                        received.1.subscribed,
                        request,
                        message,
                        i,
                    )
                    &&& message.request@ == request
                    &&& new.subscription@ == message.subscription@
                    &&& trackers.1.subscriptions.contains((message.subscription@, stop_sender))
                },
            (None, Poll::Ready(Err(_))) => false,
            (None, Poll::Pending) => {
                &&& crate::client::laws::replies::left_waiting(
                    received.0.subscribed,
                    received.1.subscribed,
                    request,
                    task,
                )
                &&& trackers.1 == trackers.0
            },
        },
{
    if refusal is None {
        match polled {
            Poll::Ready(Ok(new)) => {
                let message = choose|message: rx::Subscribed|
                    #![trigger message.subscription]
                    {
                        &&& crate::client::ops::reply_taken(
                            received.0.subscribed,
                            received.1.subscribed,
                            request,
                            message,
                        )
                        &&& new.subscription == message.subscription
                        &&& crate::client::task_tracker::subscription_tracked(
                            trackers.0,
                            trackers.1,
                            message.subscription@,
                            stop_sender,
                            new.displaced,
                        )
                    };
                let i = crate::client::laws::replies::lemma_first_answer_is_taken(
                    received.0.subscribed,
                    received.1.subscribed,
                    request,
                    message,
                );
                crate::client::laws::upkeep::lemma_tracked_signal_stops_its_subscription(
                    trackers.0,
                    trackers.1,
                    message.subscription@,
                    stop_sender,
                    new.displaced,
                );
                assert(crate::client::laws::replies::answered(received.0.subscribed.items)[i]
                    == message.request@);
                assert(crate::client::laws::replies::taken_out(
                    received.0.subscribed,
                    received.1.subscribed,
                    request,
                    message,
                    i,
                ));
            },
            _ => {
                crate::client::laws::replies::lemma_waits_without_answer(
                    received.0.subscribed,
                    received.1.subscribed,
                    request,
                    task,
                );
            },
        }
    }
}

/// The first event of a subscription names it, and no event before it does.
pub proof fn lemma_first_event(items: Seq<rx::Event>, i: int, subscription: u64)
    ensures
        crate::client::futures::subscribe::first_event(items, i, subscription) <==> {
            &&& 0 <= i < items.len()
            &&& items[i].subscription@ == subscription
            &&& forall|j: int|
                #![trigger items[j]]
                0 <= j < i ==> items[j].subscription@ != subscription
        },
        crate::client::futures::subscribe::no_event(items, subscription) <==> forall|j: int|
            #![trigger items[j]]
            0 <= j < items.len() ==> items[j].subscription@ != subscription,
{
    if 0 <= i < items.len() {
        let front = items.take(i);
        assert forall|j: int| #![trigger items[j]] 0 <= j < i implies items[j] == front[j] by {}
        if crate::client::futures::subscribe::first_event(items, i, subscription) {
            assert forall|j: int|
                #![trigger items[j]]
                0 <= j < i implies items[j].subscription@ != subscription by {
                assert(front[j].subscription@ != subscription);
            }
        }
    }
}

/// A listener for the end of the session that has been told to stop ends, and leaves everything.
/// Otherwise, as long as nothing has come: an ABORT message closes the client in every state and is
/// taken; a GOODBYE message counts in an established session only, makes the client closing, and is
/// taken; without one that counts the listener waits.
pub proof fn lemma_end_of_session_is_heard(
    stopped: bool,
    progress: Progress,
    received: ReceivedModel,
    client_state: ClientState,
    task: u64,
)
    ensures
        ({
            let turn = crate::client::futures::initialize::protocol_turn(
                ProtocolMessageListenerState::Ready,
                stopped,
                progress,
                received,
                client_state,
                task,
            );
            let after = turn.received;
            &&& after == (ReceivedModel { abort: after.abort, goodbye: after.goodbye, ..received })
            &&& if stopped {
                &&& turn.step is Finished
                &&& after == received
                &&& turn.client_state == client_state
            } else if received.abort.items.len() > 0 {
                &&& turn.step is Again
                &&& turn.state is StopAllTasks
                &&& turn.client_state is Closed
                &&& after.abort.items == received.abort.items.skip(1)
                &&& after.goodbye == received.goodbye
            } else if client_state is Established && received.goodbye.items.len() > 0 {
                &&& turn.step is Again
                &&& turn.state is StartReplyGoodbye
                &&& turn.client_state is Closing
                &&& after.abort.items.len() == 0
                &&& after.goodbye.items == received.goodbye.items.skip(1)
            } else {
                &&& turn.step is Pending
                &&& turn.state is Ready
                &&& turn.client_state == client_state
                &&& after.abort.items == received.abort.items
                &&& after.abort.waiting.contains(task)
                &&& after.goodbye.items == received.goodbye.items
                &&& client_state is Established ==> after.goodbye.waiting.contains(task)
            }
        }),
{
    if received.abort.items.len() > 0 {
        assert(received.abort.items.remove(0) =~= received.abort.items.skip(1));
    } else {
        crate::pollable::lemma_waiting_until_insert(received.abort, task, task, 0, arbitrary());
    }
    if received.goodbye.items.len() > 0 {
        assert(received.goodbye.items.remove(0) =~= received.goodbye.items.skip(1));
    } else {
        crate::pollable::lemma_waiting_until_insert(received.goodbye, task, task, 0, arbitrary());
    }
}

/// Once the end of the session has come, the listener goes through its stages in their order: the
/// answer is taken into the queue, then sent, then all tasks are stopped and the transport begins to
/// close, and when that is done it finishes. It waits where something is not ready, and fails where
/// something failed; what has been received and the state of the client are not touched any more.
pub proof fn lemma_end_of_session_is_carried_out(
    state: ProtocolMessageListenerState,
    progress: Progress,
    received: ReceivedModel,
    client_state: ClientState,
    task: u64,
)
    requires
        !(state is Ready),
    ensures
        ({
            let turn = crate::client::futures::initialize::protocol_turn(
                state,
                false,
                progress,
                received,
                client_state,
                task,
            );
            &&& turn.received == received
            &&& turn.client_state == client_state
            &&& if state is StopAllTasks {
                turn.step is StopTasksAndClose && turn.state is CloseTransport
            } else {
                match progress {
                    Progress::NotReady => turn.step is Pending && turn.state == state,
                    Progress::Failed => turn.step is Failed && turn.state == state,
                    Progress::Ready => match state {
                        ProtocolMessageListenerState::StartReplyGoodbye => turn.step is Again
                            && turn.state is SendGoodbye,
                        ProtocolMessageListenerState::SendGoodbye => turn.step is Again
                            && turn.state is StopAllTasks,
                        _ => turn.step is Finished,
                    },
                }
            }
        }),
{
}

} // verus!
