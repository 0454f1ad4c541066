//! What holds of the client as a whole.

use vstd::prelude::*;

use crate::buffer::BufferModel;
use crate::client::message_listener::ProcessMessageResult;
use crate::client::ops::subscribe::Subscribed;
use crate::client::ops::{Accepted, Reply, SendModel, SendStepModel, Watch};
use crate::client::task_tracker::TrackerModel;
use crate::client::{ClientModel, ClientState};
use crate::error::WampError;
use crate::id::{GlobalScope, Id};
use crate::pollable::{Poll, PollableSetModel};
use crate::proto::rx::{self, RxMessage};
use crate::proto::{msg_code, TxModel};
use crate::transport::TransportError;

pub mod listening;
pub mod replies;
pub mod requests;
pub mod turns;
pub mod upkeep;

verus! {

/// A message is sent once, and only after the sink has become ready for it; then the sink is
/// flushed, and after that nothing is left to be sent.
pub proof fn lemma_sent_and_flushed(op: SendModel, message: TxModel, watches: (Watch, Watch, Watch))
    requires
        op.stage is WaitReady,
        op.message == Some(message),
        crate::client::ops::interruption(op.accepted, watches.0) is None,
        crate::client::ops::interruption(op.accepted, watches.1) is None,
        crate::client::ops::interruption(op.accepted, watches.2) is None,
    ensures
        ({
            let first = crate::client::ops::sent_step(op, watches.0, Ok(()));
            let second = crate::client::ops::sent_step(first.0, watches.1, Ok(()));
            let third = crate::client::ops::sent_step(second.0, watches.2, Ok(()));
            &&& first.1 == SendStepModel::Send(message)
            &&& second.1 == SendStepModel::Flush
            &&& third.1 == SendStepModel::Sent
            &&& first.0.message is None
            &&& third.0.stage is Sent
        }),
{
}

/// An operation that has sent everything sends nothing more, whatever happens.
pub proof fn lemma_nothing_sent_afterwards(
    op: SendModel,
    watch: Watch,
    outcome: Result<(), Seq<char>>,
)
    requires
        op.stage is Sent,
    ensures
        crate::client::ops::sent_step(op, watch, outcome).0 == op,
        !(crate::client::ops::sent_step(op, watch, outcome).1 is Send),
{
}

/// A reply that comes to be buffered is the one that its request will find, unless an earlier reply
/// is there.
pub proof fn lemma_reply_reaches_its_request<R: Reply>(
    set: PollableSetModel<R>,
    reply: R,
    request: u64,
)
    requires
        reply.request_model() == request,
        crate::client::ops::unanswered(set.items, request),
    ensures
        crate::client::ops::first_reply(
            set.inserted(reply).items,
            set.items.len() as int,
            request,
        ),
        set.inserted(reply).items[set.items.len() as int] == reply,
{
    let items = set.inserted(reply).items;
    assert forall|j: int|
        #![trigger items[j]]
        0 <= j < set.items.len() implies items[j].request_model() != request by {
        assert(set.items[j].request_model() != request);
    }
}

/// A reply that comes in an established session is buffered with its kind, and everyone who waited
/// for a reply of that kind is notified.
pub proof fn lemma_reply_is_announced(message: RxMessage, buffer: BufferModel, state: ClientState)
    requires
        state is Established,
    ensures
        ({
            let processed = crate::client::message_listener::processed(message, buffer, state);
            match message {
                RxMessage::Published(reply) => {
                    &&& processed.buffer.published == buffer.published.inserted(reply)
                    &&& processed.woken == buffer.published.waiting
                },
                RxMessage::Subscribed(reply) => {
                    &&& processed.buffer.subscribed == buffer.subscribed.inserted(reply)
                    &&& processed.woken == buffer.subscribed.waiting
                },
                RxMessage::Unsubscribed(reply) => {
                    &&& processed.buffer.unsubscribed == buffer.unsubscribed.inserted(reply)
                    &&& processed.woken == buffer.unsubscribed.waiting
                },
                RxMessage::Registered(reply) => {
                    &&& processed.buffer.registered == buffer.registered.inserted(reply)
                    &&& processed.woken == buffer.registered.waiting
                },
                RxMessage::Unregistered(reply) => {
                    &&& processed.buffer.unregistered == buffer.unregistered.inserted(reply)
                    &&& processed.woken == buffer.unregistered.waiting
                },
                RxMessage::Result(reply) => {
                    &&& processed.buffer.result == buffer.result.inserted(reply)
                    &&& processed.woken == buffer.result.waiting
                },
                RxMessage::Error(reply) if reply.request_type == msg_code::SUBSCRIBE => {
                    &&& processed.buffer.errors.subscribe == buffer.errors.subscribe.inserted(reply)
                    &&& processed.woken == buffer.errors.subscribe.waiting
                },
                RxMessage::Error(reply) if reply.request_type == msg_code::UNSUBSCRIBE => {
                    &&& processed.buffer.errors.unsubscribe == buffer.errors.unsubscribe.inserted(
                        reply,
                    )
                    &&& processed.woken == buffer.errors.unsubscribe.waiting
                },
                RxMessage::Error(reply) if reply.request_type == msg_code::PUBLISH => {
                    &&& processed.buffer.errors.publish == buffer.errors.publish.inserted(reply)
                    &&& processed.woken == buffer.errors.publish.waiting
                },
                RxMessage::Error(reply) if reply.request_type == msg_code::REGISTER => {
                    &&& processed.buffer.errors.register == buffer.errors.register.inserted(reply)
                    &&& processed.woken == buffer.errors.register.waiting
                },
                RxMessage::Error(reply) if reply.request_type == msg_code::UNREGISTER => {
                    &&& processed.buffer.errors.unregister == buffer.errors.unregister.inserted(
                        reply,
                    )
                    &&& processed.woken == buffer.errors.unregister.waiting
                },
                RxMessage::Error(reply) if reply.request_type == msg_code::CALL => {
                    &&& processed.buffer.errors.call == buffer.errors.call.inserted(reply)
                    &&& processed.woken == buffer.errors.call.waiting
                },
                _ => true,
            }
        }),
{
}

/// A reply to another request does not answer a request.
pub proof fn lemma_other_replies_do_not_answer<R: Reply>(
    set: PollableSetModel<R>,
    reply: R,
    request: u64,
)
    requires
        reply.request_model() != request,
        crate::client::ops::unanswered(set.items, request),
    ensures
        crate::client::ops::unanswered(set.inserted(reply).items, request),
{
    let items = set.inserted(reply).items;
    assert forall|j: int|
        #![trigger items[j]]
        0 <= j < items.len() implies items[j].request_model() != request by {
        if j < set.items.len() {
            assert(set.items[j].request_model() != request);
        }
    }
}

/// From the moment that a SUBSCRIBED message has been heard in an established session, the events of
/// the subscription have a queue. Taking the message for the reply to a request leaves it that way.
pub proof fn lemma_subscription_gets_a_queue(
    buffer: BufferModel,
    message: rx::Subscribed,
    state: ClientState,
)
    requires
        state is Established,
    ensures
        ({
            let processed = crate::client::message_listener::processed(
                RxMessage::Subscribed(message),
                buffer,
                state,
            );
            &&& processed.result is Continue
            &&& processed.buffer.event.contains_key(message.subscription@)
            &&& buffer.event.contains_key(message.subscription@) ==> processed.buffer.event
                == buffer.event
        }),
        buffer.with_event_queue(message.subscription@).event.contains_key(message.subscription@),
{
}

/// Whatever the listener hears, a subscription keeps its queue, with the events that are in it.
pub proof fn lemma_queue_is_kept(
    item: Option<Result<RxMessage, TransportError>>,
    buffer: BufferModel,
    state: ClientState,
    id: u64,
)
    requires
        buffer.event.contains_key(id),
    ensures
        ({
            let after = crate::client::message_listener::listened(item, buffer, state).buffer;
            &&& after.event.contains_key(id)
            &&& buffer.event[id].items.is_prefix_of(after.event[id].items)
        }),
{
}

/// An event that comes in an established session for a subscription that has a queue is queued
/// behind the events that came for it before, and nowhere else; those who waited for it are
/// notified.
pub proof fn lemma_event_reaches_its_subscription(
    buffer: BufferModel,
    event: rx::Event,
    state: ClientState,
)
    requires
        state is Established,
        buffer.event.contains_key(event.subscription@),
    ensures
        ({
            let id = event.subscription@;
            let processed = crate::client::message_listener::processed(
                RxMessage::Event(event),
                buffer,
                state,
            );
            let queue = processed.buffer.event[id];
            &&& processed.result is Continue
            &&& queue.items == buffer.event[id].items.push(event)
            &&& processed.woken == buffer.event[id].waiting
            &&& processed.buffer == (BufferModel {
                event: buffer.event.insert(id, queue),
                ..buffer
            })
        }),
{
}

/// An event that comes right behind the SUBSCRIBED message of its subscription is queued, although
/// the message has not been taken yet.
pub proof fn lemma_event_right_behind_subscribed(
    buffer: BufferModel,
    message: rx::Subscribed,
    event: rx::Event,
    state: ClientState,
)
    requires
        state is Established,
        event.subscription@ == message.subscription@,
    ensures
        ({
            let subscribed = crate::client::message_listener::processed(
                RxMessage::Subscribed(message),
                buffer,
                state,
            );
            let processed = crate::client::message_listener::processed(
                RxMessage::Event(event),
                subscribed.buffer,
                state,
            );
            &&& processed.result is Continue
            &&& processed.buffer.event[event.subscription@].items.last() == event
        }),
{
    let subscribed = crate::client::message_listener::processed(
        RxMessage::Subscribed(message),
        buffer,
        state,
    );
    lemma_subscription_gets_a_queue(buffer, message, state);
    lemma_event_reaches_its_subscription(subscribed.buffer, event, state);
}

/// Once a subscription has been cancelled, an event for it violates the protocol.
pub proof fn lemma_event_after_unsubscribe(
    buffer: BufferModel,
    event: rx::Event,
    state: ClientState,
)
    requires
        state is Established,
    ensures
        ({
            let unsubscribed = BufferModel {
                event: buffer.event.remove(event.subscription@),
                ..buffer
            };
            crate::client::message_listener::processed(
                RxMessage::Event(event),
                unsubscribed,
                state,
            ).result == ProcessMessageResult::ProtocolError
        }),
{
}

/// A GOODBYE message that comes while the client is shutting down acknowledges the shutdown: the
/// listener goes on, and closing finds a GOODBYE message and succeeds, whatever the state of the
/// client has become by then and even if the time is up. What is sent is not interrupted by these
/// either.
pub proof fn lemma_shutdown_acknowledged(
    buffer: BufferModel,
    goodbye: rx::Goodbye,
    watch: Watch,
    after: BufferModel,
    task: u64,
    polled: Poll<Result<(), WampError>>,
)
    ensures
        ({
            let processed = crate::client::message_listener::processed(
                RxMessage::Goodbye(goodbye),
                buffer,
                ClientState::ShuttingDown,
            );
            &&& processed.result is Continue
            &&& processed.buffer.goodbye == buffer.goodbye.inserted(goodbye)
            &&& processed.woken == buffer.goodbye.waiting
            &&& crate::client::ops::close::goodbye_polled(
                watch,
                (processed.buffer, after),
                task,
                polled,
            ) ==> polled == Poll::Ready(Ok::<(), WampError>(()))
            &&& crate::client::ops::interruption(
                Accepted::ShuttingDown,
                crate::client::ops::close::closing_watched(watch, processed.buffer),
            ) is None
        }),
{
}

/// An acknowledgement of the shutdown that is there stays there, whatever the listener hears behind
/// it, and whether or not the stream ends: closing succeeds all the same.
pub proof fn lemma_acknowledgement_is_kept(
    item: Option<Result<RxMessage, TransportError>>,
    buffer: BufferModel,
    state: ClientState,
    watch: Watch,
    after: BufferModel,
    task: u64,
    polled: Poll<Result<(), WampError>>,
)
    requires
        buffer.goodbye.items.len() > 0,
    ensures
        ({
            let heard = crate::client::message_listener::listened(item, buffer, state).buffer;
            &&& heard.goodbye.items.len() > 0
            &&& heard.goodbye.items[0] == buffer.goodbye.items[0]
            &&& crate::client::ops::close::goodbye_polled(watch, (heard, after), task, polled)
                ==> polled == Poll::Ready(Ok::<(), WampError>(()))
        }),
{
}

/// A SUBSCRIBED message that is there wins over the clock: as long as the session is established,
/// the request succeeds.
pub proof fn lemma_subscribed_in_time(
    request: u64,
    watch: Watch,
    buffers: (BufferModel, BufferModel),
    trackers: (TrackerModel, TrackerModel),
    task: u64,
    stop_sender: u64,
    polled: Poll<Result<Subscribed, WampError>>,
)
    requires
        watch.state is Established,
        !crate::client::ops::unanswered(buffers.0.subscribed.items, request),
        crate::client::ops::subscribe::subscribed_polled(
            request,
            watch,
            buffers,
            trackers,
            task,
            stop_sender,
            polled,
        ),
    ensures
        polled matches Poll::Ready(Ok(_)),
{
}

/// A reply to a request to publish that is there wins over the clock: as long as the session is
/// established, the request is answered by it.
pub proof fn lemma_published_in_time(
    request: u64,
    watch: Watch,
    buffers: (BufferModel, BufferModel),
    task: u64,
    error_first: bool,
    polled: Poll<Result<Id<GlobalScope>, WampError>>,
)
    requires
        watch.state is Established,
        !crate::client::ops::unanswered(buffers.0.published.items, request)
            || !crate::client::ops::unanswered(buffers.0.errors.publish.items, request),
        crate::client::ops::publish::ack_polled(
            request,
            watch,
            buffers,
            task,
            error_first,
            polled,
        ),
    ensures
        polled is Ready,
        polled->Ready_0 is Ok || polled->Ready_0->Err_0@ is ErrorReceived,
{
}

/// A reply to a request to unsubscribe that is there wins over the clock: as long as the session is
/// established, the request is answered by it.
pub proof fn lemma_unsubscribed_in_time(
    request: u64,
    subscription: u64,
    watch: Watch,
    buffers: (BufferModel, BufferModel),
    trackers: (TrackerModel, TrackerModel),
    task: u64,
    error_first: bool,
    polled: Poll<Result<Option<u64>, WampError>>,
)
    requires
        watch.state is Established,
        !crate::client::ops::unanswered(buffers.0.unsubscribed.items, request)
            || !crate::client::ops::unanswered(buffers.0.errors.unsubscribe.items, request),
        crate::client::ops::unsubscribe::unsubscribed_polled(
            request,
            subscription,
            watch,
            buffers,
            trackers,
            task,
            error_first,
            polled,
        ),
    ensures
        polled is Ready,
        polled->Ready_0 is Ok || polled->Ready_0->Err_0@ is ErrorReceived,
{
}

/// A client that has shut down and closed its transport does not panic when it is dropped, and has
/// no subscriptions left to stop. One that is still shutting down panics if it is to.
pub proof fn lemma_closed_client_is_dropped_quietly(client: ClientModel)
    ensures
        ({
            let closed = client.shutting_down().without_subscriptions().transport_closed();
            &&& !closed.panics_when_dropped()
            &&& crate::client::task_tracker::signals(closed.task_tracker.subscriptions).len() == 0
            &&& closed.received == client.received
        }),
        client.shutting_down().panics_when_dropped() == client.panic_on_drop_while_open,
{
}

/// While a client shuts down it begins no request that needs a broker, and afterwards neither.
pub proof fn lemma_no_requests_after_close(client: ClientModel)
    ensures
        crate::client::broker_refusal(client.shutting_down().state.val) is Some,
        crate::client::broker_refusal(client.transport_closed().state.val) is Some,
{
}

/// A request that needs a broker is begun in no state but one: a session is established, with a
/// router whose WELCOME message told of the role "broker".
pub proof fn lemma_broker_told_of(welcome: rx::Welcome, buffer: BufferModel, state: ClientState)
    requires
        !(state is Established),
        !(state is ShuttingDown),
    ensures
        ({
            let processed = crate::client::message_listener::processed(
                RxMessage::Welcome(welcome),
                buffer,
                state,
            );
            let details = crate::transport::dict_model(welcome.details);
            &&& processed.result matches ProcessMessageResult::Welcome {
                session_id,
                router_capabilities,
            }
            &&& session_id == welcome.session
            &&& (crate::client::broker_refusal(
                ClientState::Established { session_id, router_capabilities },
            ) is None <==> details.contains_key("roles"@) && details["roles"@] is Dict
                && details["roles"@]->Dict_0.contains_key("broker"@))
        }),
        crate::client::broker_refusal(state) is Some,
{
}

} // verus!
