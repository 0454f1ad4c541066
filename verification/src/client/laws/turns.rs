//! What the state of the client, the clock and the sink do to an operation that is under way.

use vstd::prelude::*;

use crate::buffer::BufferModel;
use crate::client::ops::publish::PublishModel;
use crate::client::ops::subscribe::Subscribed;
use crate::client::ops::{
    Accepted, SendModel, SendStage, SendStep, SendStepModel, Watch,
};
use crate::client::task_tracker::TrackerModel;
use crate::client::ClientState;
use crate::error::{WampError, WampErrorModel};
use crate::id::{GlobalScope, Id};
use crate::pollable::Poll;

verus! {

/// The name that a state is called by in errors.
pub open spec fn called(state: ClientState, name: Seq<char>) -> bool {
    match state {
        ClientState::Closed => name == "CLOSED"@,
        ClientState::Establishing => name == "ESTABLISHING"@,
        ClientState::Failed => name == "FAILED"@,
        ClientState::Authenticating => name == "AUTHENTICATING"@,
        ClientState::Established { .. } => name == "ESTABLISHED"@,
        ClientState::ShuttingDown => name == "SHUTTING_DOWN"@,
        ClientState::Closing => name == "CLOSING"@,
        ClientState::TransportClosed => name == "TRANSPORT_CLOSED"@,
    }
}

/// The outcome is the error that the client has come into the state of this name.
pub open spec fn ended_in<T>(polled: Poll<Result<T, WampError>>, name: Seq<char>) -> bool {
    polled matches Poll::Ready(Err(WampError::ClientStateChanged(told))) && told@ == name
}

/// Every state has the name that it is called by.
pub proof fn lemma_states_have_names(state: ClientState)
    ensures
        called(state, crate::client::state_name(state)),
{
}

/// In no state but an established session does a request that is under way go on with sending: a
/// turn of publishing, subscribing or unsubscribing ends with an error that names the state, and
/// nothing is sent.
pub proof fn lemma_nothing_sent_without_session(
    op: SendModel,
    publish: PublishModel,
    watch: Watch,
    outcome: Result<(), Seq<char>>,
    request: u64,
    name: Seq<char>,
)
    requires
        !(watch.state is Established),
        called(watch.state, name),
        op.accepted is Established,
    ensures
        crate::client::ops::sent_step(op, watch, outcome) == (
            op,
            SendStepModel::Failed(WampErrorModel::ClientStateChanged(name)),
        ),
        crate::client::ops::publish::publish_step(publish, watch, outcome, request) == (
            publish,
            SendStepModel::Failed(WampErrorModel::ClientStateChanged(name)),
        ),
{
}

/// In no state but an established session does a request wait for its reply: it ends with an error
/// that names the state, whatever has been received, and nothing is taken.
pub proof fn lemma_no_reply_without_session(
    request: u64,
    subscription: u64,
    watch: Watch,
    buffers: (BufferModel, BufferModel),
    trackers: (TrackerModel, TrackerModel),
    task: u64,
    stop_sender: u64,
    error_first: bool,
    name: Seq<char>,
)
    requires
        !(watch.state is Established),
        called(watch.state, name),
    ensures
        forall|polled: Poll<Result<Subscribed, WampError>>| #[trigger]
            crate::client::ops::subscribe::subscribed_polled(
                request,
                watch,
                buffers,
                trackers,
                task,
                stop_sender,
                polled,
            ) ==> ended_in(polled, name) && buffers.1 == buffers.0 && trackers.1 == trackers.0,
        forall|polled: Poll<Result<Id<GlobalScope>, WampError>>| #[trigger]
            crate::client::ops::publish::ack_polled(
                request,
                watch,
                buffers,
                task,
                error_first,
                polled,
            ) ==> ended_in(polled, name) && buffers.1 == buffers.0,
        forall|polled: Poll<Result<Option<u64>, WampError>>| #[trigger]
            crate::client::ops::unsubscribe::unsubscribed_polled(
                request,
                subscription,
                watch,
                buffers,
                trackers,
                task,
                error_first,
                polled,
            ) ==> ended_in(polled, name) && buffers.1 == buffers.0 && trackers.1 == trackers.0,
{
}

/// Subscribing, unsubscribing and publishing with acknowledgement need an established session from
/// beginning to end; closing does not. What an operation needs, and what it is called in errors,
/// stays the same from turn to turn.
pub proof fn lemma_needs_stay_the_same(
    topic: Seq<char>,
    request: u64,
    subscription: u64,
    broadcast: crate::client::BroadcastModel,
    reason: Seq<char>,
    op: SendModel,
    watch: Watch,
    outcome: Result<(), Seq<char>>,
)
    ensures
        crate::client::ops::subscribe::subscribe_send(topic, request).accepted is Established,
        crate::client::ops::unsubscribe::unsubscribe_send(
            subscription,
            request,
        ).accepted is Established,
        crate::client::ops::publish::ack_send(topic, request, broadcast).accepted is Established,
        crate::client::ops::close::goodbye_send(reason).accepted is ShuttingDown,
        ({
            let next = crate::client::ops::sent_step(op, watch, outcome).0;
            &&& next.accepted == op.accepted
            &&& next.message_type == op.message_type
            &&& next.flush_type == op.flush_type
        }),
{
}

/// While the client closes the connection, it has to be shutting down or closed: in every other
/// state the closing ends with an error that names the state, and nothing is sent, unless the router
/// has acknowledged the shutdown.
pub proof fn lemma_closing_needs_a_shutdown(
    op: SendModel,
    buffer: BufferModel,
    watch: Watch,
    outcome: Result<(), Seq<char>>,
    name: Seq<char>,
)
    requires
        op.accepted is ShuttingDown,
        buffer.goodbye.items.len() == 0,
        called(watch.state, name),
    ensures
        ({
            let turn = crate::client::ops::sent_step(
                op,
                crate::client::ops::close::closing_watched(watch, buffer),
                outcome,
            );
            if watch.state is ShuttingDown || watch.state is Closed {
                watch.timed_out ==> turn == (op, SendStepModel::Failed(WampErrorModel::Timeout))
            } else {
                turn == (op, SendStepModel::Failed(WampErrorModel::ClientStateChanged(name)))
            }
        }),
{
}

/// While the client closes the connection, the first GOODBYE message ends the waiting with success
/// and is taken, whatever else holds. Without one, another state than that of shutting down or
/// closed, or else the clock, ends it with an error; otherwise it goes on. Nothing else of what has
/// been received is touched.
pub proof fn lemma_goodbye_is_waited_for(
    watch: Watch,
    buffers: (BufferModel, BufferModel),
    task: u64,
    polled: Poll<Result<(), WampError>>,
    name: Seq<char>,
)
    requires
        crate::client::ops::close::goodbye_polled(watch, buffers, task, polled),
        called(watch.state, name),
    ensures
        buffers.1 == (BufferModel { goodbye: buffers.1.goodbye, ..buffers.0 }),
        if buffers.0.goodbye.items.len() > 0 {
            &&& polled matches Poll::Ready(Ok(()))
            &&& buffers.1.goodbye.items == buffers.0.goodbye.items.skip(1)
            &&& buffers.1.goodbye.waiting == buffers.0.goodbye.waiting
        } else {
            &&& buffers.1.goodbye.items.len() == 0
            &&& buffers.1.goodbye.waiting.contains(task)
            &&& if !(watch.state is ShuttingDown) && !(watch.state is Closed) {
                ended_in(polled, name)
            } else if watch.timed_out {
                polled matches Poll::Ready(Err(WampError::Timeout))
            } else {
                polled is Pending
            }
        },
{
    let goodbye = buffers.0.goodbye;
    if goodbye.items.len() > 0 {
        assert(goodbye.items.remove(0) =~= goodbye.items.skip(1));
    } else {
        crate::pollable::lemma_waiting_until_insert(goodbye, task, task, 0, arbitrary());
    }
}

/// When its time is up, a request that is under way ends with a timeout and sends nothing more.
pub proof fn lemma_clock_ends_sending(
    op: SendModel,
    publish: PublishModel,
    watch: Watch,
    outcome: Result<(), Seq<char>>,
    request: u64,
)
    requires
        watch.state is Established,
        watch.timed_out,
        op.accepted is Established,
    ensures
        crate::client::ops::sent_step(op, watch, outcome) == (
            op,
            SendStepModel::Failed(WampErrorModel::Timeout),
        ),
        crate::client::ops::publish::publish_step(publish, watch, outcome, request) == (
            publish,
            SendStepModel::Failed(WampErrorModel::Timeout),
        ),
{
}

/// In an established session, in time, and as long as the sink does what it is to do, an operation
/// sends its message, flushes the sink, and is then done with sending; it does not fail.
pub proof fn lemma_sending_goes_on(op: SendModel, message: crate::proto::TxModel, watch: Watch)
    requires
        op.accepted is Established && watch.state is Established || op.accepted is ShuttingDown
            && (watch.state is ShuttingDown || watch.state is Closed),
        !watch.timed_out,
        op.stage is WaitReady ==> op.message == Some(message),
    ensures
        ({
            let (next, step) = crate::client::ops::sent_step(op, watch, Ok(()));
            match op.stage {
                SendStage::WaitReady => {
                    &&& step == SendStepModel::Send(message)
                    &&& next == (SendModel { message: None, stage: SendStage::Sending, ..op })
                },
                SendStage::Sending => {
                    &&& step is Flush
                    &&& next == (SendModel { stage: SendStage::Flushing, ..op })
                },
                SendStage::Flushing => {
                    &&& step is Sent
                    &&& next == (SendModel { stage: SendStage::Sent, ..op })
                },
                SendStage::Sent => step is Sent && next == op,
            }
        }),
{
}

/// A failure of the sink ends an operation with the text of the failure, and with what the sink was
/// to do and for which type of message; nothing is sent.
pub proof fn lemma_sink_failure_is_reported(op: SendModel, watch: Watch, error: Seq<char>)
    requires
        op.accepted is Established && watch.state is Established || op.accepted is ShuttingDown
            && (watch.state is ShuttingDown || watch.state is Closed),
        !watch.timed_out,
        !(op.stage is Sent),
    ensures
        ({
            let (next, step) = crate::client::ops::sent_step(op, watch, Err(error));
            &&& next == op
            &&& step == SendStepModel::Failed(
                match op.stage {
                    SendStage::WaitReady => WampErrorModel::WaitForReadyToSendFailed {
                        message_type: op.message_type,
                        error,
                    },
                    SendStage::Sending => WampErrorModel::MessageSendFailed {
                        message_type: op.message_type,
                        error,
                    },
                    _ => WampErrorModel::SinkFlushFailed { message_type: op.flush_type, error },
                },
            )
        }),
{
}

/// The same of publishing.
pub proof fn lemma_publishing_failure_is_reported(
    op: PublishModel,
    watch: Watch,
    error: Seq<char>,
    request: u64,
)
    requires
        watch.state is Established,
        !watch.timed_out,
        !(op.stage is Sent),
    ensures
        ({
            let (next, step) = crate::client::ops::publish::publish_step(
                op,
                watch,
                Err(error),
                request,
            );
            &&& next == op
            &&& step == SendStepModel::Failed(
                match op.stage {
                    SendStage::WaitReady => WampErrorModel::WaitForReadyToSendFailed {
                        message_type: "PUBLISH"@,
                        error,
                    },
                    SendStage::Sending => WampErrorModel::MessageSendFailed {
                        message_type: "PUBLISH"@,
                        error,
                    },
                    _ => WampErrorModel::SinkFlushFailed { message_type: "PUBLISH"@, error },
                },
            )
        }),
{
}

/// What each operation is called in errors.
pub proof fn lemma_operations_have_names(
    topic: Seq<char>,
    request: u64,
    subscription: u64,
    broadcast: crate::client::BroadcastModel,
    reason: Seq<char>,
)
    ensures
        ({
            let send = crate::client::ops::subscribe::subscribe_send(topic, request);
            send.message_type == "SUBSCRIBE"@ && send.flush_type == "SUBSCRIBE"@
        }),
        ({
            let send = crate::client::ops::unsubscribe::unsubscribe_send(subscription, request);
            send.message_type == "UNSUBSCRIBE"@ && send.flush_type == "UNSUBSCRIBE"@
        }),
        ({
            let send = crate::client::ops::publish::ack_send(topic, request, broadcast);
            send.message_type == "PUBLISH"@ && send.flush_type == "PUBLISH"@
        }),
        ({
            let send = crate::client::ops::close::goodbye_send(reason);
            send.message_type == "GOODBYE"@ && send.flush_type == "GOODBYE (flush)"@
        }),
        crate::client::ops::initialize::MESSAGE_TYPE@ == "HELLO"@,
{
}

/// A step is told of as it is: which one it is, with the message to be sent or the error.
pub proof fn lemma_step_is_told(step: SendStep)
    ensures
        match step {
            SendStep::WaitReady => step@ is WaitReady,
            SendStep::Send(message) => step@ == SendStepModel::Send(message@),
            SendStep::Flush => step@ is Flush,
            SendStep::Sent => step@ is Sent,
            SendStep::Failed(error) => step@ == SendStepModel::Failed(error@),
        },
{
}

/// How the sink fared is told of as it is, with the text of a failure.
pub proof fn lemma_outcome_is_told(outcome: Result<(), String>)
    ensures
        match outcome {
            Ok(()) => crate::client::ops::outcome_model(outcome) == Ok::<(), Seq<char>>(()),
            Err(error) => crate::client::ops::outcome_model(outcome) == Err::<(), Seq<char>>(
                error@,
            ),
        },
{
}

/// What ends an operation is told of as it is.
pub proof fn lemma_error_is_told(error: Option<WampError>)
    ensures
        match error {
            Some(e) => crate::client::ops::error_model(error) == Some(e@),
            None => crate::client::ops::error_model(error) is None,
        },
{
}

/// Whether an operation has to end is decided by the state first and then by the clock.
pub proof fn lemma_interruption(accepted: Accepted, watch: Watch, name: Seq<char>)
    requires
        called(watch.state, name),
    ensures
        ({
            let fits = match accepted {
                Accepted::Established => watch.state is Established,
                Accepted::ShuttingDown => watch.state is ShuttingDown || watch.state is Closed,
            };
            crate::client::ops::interruption(accepted, watch) == if !fits {
                Some(WampErrorModel::ClientStateChanged(name))
            } else if watch.timed_out {
                Some(WampErrorModel::Timeout)
            } else {
                None
            }
        }),
{
}

} // verus!
