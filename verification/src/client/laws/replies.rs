//! How a request is answered by the reply that belongs to it.

use vstd::prelude::*;

use crate::buffer::{BufferModel, ErrorsModel};
use crate::client::ops::subscribe::Subscribed;
use crate::client::ops::{Reply, Watch};
use crate::client::task_tracker::TrackerModel;
use crate::error::WampError;
use crate::id::{GlobalScope, Id};
use crate::pollable::{Poll, PollableSetModel};
use crate::proto::rx;

verus! {

/// The requests that replies answer, one by one.
pub open spec fn answered<R: Reply>(items: Seq<R>) -> Seq<u64> {
    Seq::new(items.len(), |i: int| items[i].request_model())
}

/// Which request a reply answers is what it says itself.
pub proof fn lemma_reply_says_its_request(
    published: rx::Published,
    subscribed: rx::Subscribed,
    unsubscribed: rx::Unsubscribed,
    error: rx::Error,
)
    ensures
        published.request_model() == published.request@,
        subscribed.request_model() == subscribed.request@,
        unsubscribed.request_model() == unsubscribed.request@,
        error.request_model() == error.request@,
{
}

/// `reply` was the item at `i`, the first of all that answer the request, and is no longer there;
/// the others are, in their order, and whoever waits still waits.
pub open spec fn taken_out<R: Reply>(
    before: PollableSetModel<R>,
    after: PollableSetModel<R>,
    request: u64,
    reply: R,
    i: int,
) -> bool {
    &&& 0 <= i < before.items.len()
    &&& reply == before.items[i]
    &&& answered(before.items)[i] == request
    &&& !answered(before.items).take(i).contains(request)
    &&& after.items == before.items.take(i) + before.items.skip(i + 1)
    &&& after.waiting == before.waiting
}

/// No item answers the request; everything stays, and the task waits.
pub open spec fn left_waiting<R: Reply>(
    before: PollableSetModel<R>,
    after: PollableSetModel<R>,
    request: u64,
    task: u64,
) -> bool {
    &&& !answered(before.items).contains(request)
    &&& after.items == before.items
    &&& after.waiting.contains(task)
}

/// A reply that is taken is the first that answers the request. It leaves the others where they are.
pub proof fn lemma_first_answer_is_taken<R: Reply>(
    before: PollableSetModel<R>,
    after: PollableSetModel<R>,
    request: u64,
    reply: R,
) -> (i: int)
    requires
        crate::client::ops::reply_taken(before, after, request, reply),
    ensures
        taken_out(before, after, request, reply, i),
{
    let i = choose|i: int|
        #![trigger before.items[i]]
        crate::client::ops::first_reply(before.items, i, request) && reply == before.items[i]
            && after == before.taken(i);
    assert(before.items.remove(i) =~= before.items.take(i) + before.items.skip(i + 1));
    if answered(before.items).take(i).contains(request) {
        let j = choose|j: int|
            0 <= j < answered(before.items).take(i).len() && answered(before.items).take(i)[j]
                == request;
        assert(before.items[j].request_model() == request);
    }
    i
}

/// A task that waits for a reply does so because none is there that answers the request.
pub proof fn lemma_waits_without_answer<R: Reply>(
    before: PollableSetModel<R>,
    after: PollableSetModel<R>,
    request: u64,
    task: u64,
)
    requires
        crate::client::ops::reply_awaited(before, after, request, task),
    ensures
        left_waiting(before, after, request, task),
{
    if answered(before.items).contains(request) {
        let j = choose|j: int|
            0 <= j < answered(before.items).len() && answered(before.items)[j] == request;
        assert(before.items[j].request_model() == request);
    }
    crate::pollable::lemma_waiting_until_insert(before, task, task, 0, arbitrary());
}

/// In an established session a request to subscribe succeeds if and only if a SUBSCRIBED message
/// with its request ID is there. The subscription is the one that the first such message names; that
/// message is gone, the subscription has a queue, and it is stopped by the signal that was handed
/// in. Otherwise the task waits, or the time is up, and nothing else changes.
pub proof fn lemma_subscription_is_the_one_told(
    request: u64,
    watch: Watch,
    buffers: (BufferModel, BufferModel),
    trackers: (TrackerModel, TrackerModel),
    task: u64,
    stop_sender: u64,
    polled: Poll<Result<Subscribed, WampError>>,
)
    requires
        watch.state is Established,
        crate::client::ops::subscribe::subscribed_polled(
            request,
            watch,
            buffers,
            trackers,
            task,
            stop_sender,
            polled,
        ),
    ensures
        match polled {
            Poll::Ready(Ok(subscribed)) => exists|message: rx::Subscribed, i: int|
                {
                    let id = message.subscription@;
                    &&& #[trigger] taken_out(
                        buffers.0.subscribed,
                        buffers.1.subscribed,
                        request,
                        message,
                        i,
                    )
                    &&& message.request@ == request
                    &&& subscribed.stream.subscription_id@ == id
                    &&& buffers.1.event.contains_key(id)
                    &&& buffers.0.event.contains_key(id) ==> buffers.1.event == buffers.0.event
                    &&& !buffers.0.event.contains_key(id) ==> buffers.1.event[id].items.len() == 0
                        && buffers.1.event.remove(id) == buffers.0.event.remove(id)
                    &&& trackers.1.subscriptions.contains((id, stop_sender))
                },
            Poll::Ready(Err(error)) => {
                &&& error is Timeout
                &&& watch.timed_out
                &&& left_waiting(buffers.0.subscribed, buffers.1.subscribed, request, task)
                &&& buffers.1.event == buffers.0.event
                &&& trackers.1 == trackers.0
            },
            Poll::Pending => {
                &&& !watch.timed_out
                &&& left_waiting(buffers.0.subscribed, buffers.1.subscribed, request, task)
                &&& buffers.1.event == buffers.0.event
                &&& trackers.1 == trackers.0
            },
        },
        buffers.1 == (BufferModel {
            subscribed: buffers.1.subscribed,
            event: buffers.1.event,
            ..buffers.0
        }),
{
    match polled {
        Poll::Ready(Ok(subscribed)) => {
            let message = choose|message: rx::Subscribed|
                #![trigger message.subscription]
                {
                    let id = message.subscription@;
                    &&& crate::client::ops::reply_taken(
                        buffers.0.subscribed,
                        buffers.1.subscribed,
                        request,
                        message,
                    )
                    &&& buffers.1 == (BufferModel {
                        subscribed: buffers.1.subscribed,
                        ..buffers.0
                    }).with_event_queue(id)
                    &&& subscribed.stream.subscription_id@ == id
                    &&& crate::client::task_tracker::subscription_tracked(
                        trackers.0,
                        trackers.1,
                        id,
                        stop_sender,
                        subscribed.displaced,
                    )
                };
            let id = message.subscription@;
            let i = lemma_first_answer_is_taken(
                buffers.0.subscribed,
                buffers.1.subscribed,
                request,
                message,
            );
            crate::client::laws::upkeep::lemma_tracked_signal_stops_its_subscription(
                trackers.0,
                trackers.1,
                id,
                stop_sender,
                subscribed.displaced,
            );
            assert(answered(buffers.0.subscribed.items)[i] == message.request_model());
            if !buffers.0.event.contains_key(id) {
                assert(buffers.1.event.remove(id) =~= buffers.0.event.remove(id));
            }
            assert(taken_out(
                buffers.0.subscribed,
                buffers.1.subscribed,
                request,
                message,
                i,
            ));
        },
        _ => {
            lemma_waits_without_answer(
                buffers.0.subscribed,
                buffers.1.subscribed,
                request,
                task,
            );
        },
    }
}

/// In an established session a request to publish is answered with the publication that the first
/// PUBLISHED message with its request ID names, or with what the first ERROR message with its
/// request ID says, according to which is looked for first and which is there. Without either the
/// task waits for both, or the time is up. Nothing but these two is touched.
pub proof fn lemma_publication_is_the_one_told(
    request: u64,
    watch: Watch,
    buffers: (BufferModel, BufferModel),
    task: u64,
    error_first: bool,
    polled: Poll<Result<Id<GlobalScope>, WampError>>,
)
    requires
        watch.state is Established,
        crate::client::ops::publish::ack_polled(request, watch, buffers, task, error_first, polled),
    ensures
        ({
            let published = (buffers.0.published, buffers.1.published);
            let errors = (buffers.0.errors.publish, buffers.1.errors.publish);
            match polled {
                Poll::Ready(Ok(publication)) => {
                    &&& exists|message: rx::Published, i: int| #[trigger]
                        taken_out(published.0, published.1, request, message, i)
                            && message.request@ == request && publication@
                            == message.publication@
                    &&& if error_first {
                        left_waiting(errors.0, errors.1, request, task)
                    } else {
                        errors.1 == errors.0
                    }
                },
                Poll::Ready(Err(WampError::ErrorReceived { error, request_type, request_id })) => {
                    &&& exists|message: rx::Error, i: int| #[trigger]
                        taken_out(errors.0, errors.1, request, message, i) && message.request@
                            == request && error@ == message.error@ && request_type
                            == message.request_type
                    &&& request_id@ == request
                    &&& if error_first {
                        published.1 == published.0
                    } else {
                        left_waiting(published.0, published.1, request, task)
                    }
                },
                Poll::Ready(Err(error)) => {
                    &&& error is Timeout
                    &&& watch.timed_out
                    &&& left_waiting(published.0, published.1, request, task)
                    &&& left_waiting(errors.0, errors.1, request, task)
                },
                Poll::Pending => {
                    &&& !watch.timed_out
                    &&& left_waiting(published.0, published.1, request, task)
                    &&& left_waiting(errors.0, errors.1, request, task)
                },
            }
        }),
        buffers.1 == (BufferModel {
            published: buffers.1.published,
            errors: ErrorsModel { publish: buffers.1.errors.publish, ..buffers.0.errors },
            ..buffers.0
        }),
{
    let published = (buffers.0.published, buffers.1.published);
    let errors = (buffers.0.errors.publish, buffers.1.errors.publish);
    match polled {
        Poll::Ready(Ok(publication)) => {
            let message = choose|message: rx::Published|
                #![trigger message.publication]
                publication == message.publication && if error_first {
                    crate::client::ops::either_polled(
                        errors,
                        published,
                        request,
                        task,
                        crate::client::ops::Either::Second(message),
                    )
                } else {
                    crate::client::ops::either_polled(
                        published,
                        errors,
                        request,
                        task,
                        crate::client::ops::Either::First(message),
                    )
                };
            let i = lemma_first_answer_is_taken(published.0, published.1, request, message);
            assert(answered(published.0.items)[i] == message.request_model());
            assert(taken_out(published.0, published.1, request, message, i));
            if error_first {
                lemma_waits_without_answer(errors.0, errors.1, request, task);
            }
        },
        Poll::Ready(Err(error)) => if error@ is Timeout {
            lemma_waits_without_answer(published.0, published.1, request, task);
            lemma_waits_without_answer(errors.0, errors.1, request, task);
        } else {
            let message = choose|message: rx::Error|
                #![trigger crate::client::ops::received_error(message)]
                error@ == crate::client::ops::received_error(message) && if error_first {
                    crate::client::ops::either_polled(
                        errors,
                        published,
                        request,
                        task,
                        crate::client::ops::Either::First(message),
                    )
                } else {
                    crate::client::ops::either_polled(
                        published,
                        errors,
                        request,
                        task,
                        crate::client::ops::Either::Second(message),
                    )
                };
            let i = lemma_first_answer_is_taken(errors.0, errors.1, request, message);
            assert(answered(errors.0.items)[i] == message.request_model());
            assert(taken_out(errors.0, errors.1, request, message, i));
            if !error_first {
                lemma_waits_without_answer(published.0, published.1, request, task);
            }
        },
        Poll::Pending => {
            lemma_waits_without_answer(published.0, published.1, request, task);
            lemma_waits_without_answer(errors.0, errors.1, request, task);
        },
    }
}

/// In an established session a request to unsubscribe succeeds if an UNSUBSCRIBED message with its
/// request ID is found, and fails with what an ERROR message with its request ID says if that is
/// found. With success the subscription's queue is gone, no other is, and the subscription is no
/// longer tracked; the signal that comes out is the one that it was tracked with. Otherwise both
/// stay.
pub proof fn lemma_unsubscription_ends_the_subscription(
    request: u64,
    subscription: u64,
    watch: Watch,
    buffers: (BufferModel, BufferModel),
    trackers: (TrackerModel, TrackerModel),
    task: u64,
    error_first: bool,
    polled: Poll<Result<Option<u64>, WampError>>,
)
    requires
        watch.state is Established,
        crate::client::task_tracker::tracked_once(trackers.0.subscriptions),
        crate::client::ops::unsubscribe::unsubscribed_polled(
            request,
            subscription,
            watch,
            buffers,
            trackers,
            task,
            error_first,
            polled,
        ),
    ensures
        ({
            let unsubscribed = (buffers.0.unsubscribed, buffers.1.unsubscribed);
            let errors = (buffers.0.errors.unsubscribe, buffers.1.errors.unsubscribe);
            match polled {
                Poll::Ready(Ok(signal)) => {
                    &&& exists|message: rx::Unsubscribed, i: int| #[trigger]
                        taken_out(unsubscribed.0, unsubscribed.1, request, message, i)
                            && message.request@ == request
                    &&& !buffers.1.event.contains_key(subscription)
                    &&& forall|id: u64|
                        id != subscription ==> (#[trigger] buffers.1.event.contains_key(id) <==>
                            buffers.0.event.contains_key(id)) && (buffers.0.event.contains_key(id)
                            ==> buffers.1.event[id] == buffers.0.event[id])
                    &&& forall|other: u64, s: u64| #[trigger]
                        trackers.1.subscriptions.contains((other, s)) <==> other != subscription
                            && trackers.0.subscriptions.contains((other, s))
                    &&& match signal {
                        Some(s) => trackers.0.subscriptions.contains((subscription, s)),
                        None => forall|s: u64|
                            !(#[trigger] trackers.0.subscriptions.contains((subscription, s))),
                    }
                    &&& if error_first {
                        left_waiting(errors.0, errors.1, request, task)
                    } else {
                        errors.1 == errors.0
                    }
                },
                Poll::Ready(Err(WampError::ErrorReceived { error, request_type, request_id })) => {
                    &&& exists|message: rx::Error, i: int| #[trigger]
                        taken_out(errors.0, errors.1, request, message, i) && message.request@
                            == request && error@ == message.error@ && request_type
                            == message.request_type
                    &&& request_id@ == request
                    &&& buffers.1.event == buffers.0.event
                    &&& trackers.1 == trackers.0
                    &&& if error_first {
                        unsubscribed.1 == unsubscribed.0
                    } else {
                        left_waiting(unsubscribed.0, unsubscribed.1, request, task)
                    }
                },
                Poll::Ready(Err(error)) => {
                    &&& error is Timeout
                    &&& watch.timed_out
                    &&& left_waiting(unsubscribed.0, unsubscribed.1, request, task)
                    &&& left_waiting(errors.0, errors.1, request, task)
                    &&& buffers.1.event == buffers.0.event
                    &&& trackers.1 == trackers.0
                },
                Poll::Pending => {
                    &&& !watch.timed_out
                    &&& left_waiting(unsubscribed.0, unsubscribed.1, request, task)
                    &&& left_waiting(errors.0, errors.1, request, task)
                    &&& buffers.1.event == buffers.0.event
                    &&& trackers.1 == trackers.0
                },
            }
        }),
        buffers.1 == (BufferModel {
            unsubscribed: buffers.1.unsubscribed,
            errors: ErrorsModel { unsubscribe: buffers.1.errors.unsubscribe, ..buffers.0.errors },
            event: buffers.1.event,
            ..buffers.0
        }),
{
    let unsubscribed = (buffers.0.unsubscribed, buffers.1.unsubscribed);
    let errors = (buffers.0.errors.unsubscribe, buffers.1.errors.unsubscribe);
    match polled {
        Poll::Ready(Ok(signal)) => {
            let message = choose|message: rx::Unsubscribed| #[trigger]
                crate::client::ops::unsubscribe::unsubscribed_found(
                    unsubscribed,
                    errors,
                    request,
                    task,
                    error_first,
                    message,
                );
            let i = lemma_first_answer_is_taken(unsubscribed.0, unsubscribed.1, request, message);
            assert(answered(unsubscribed.0.items)[i] == message.request_model());
            assert(taken_out(unsubscribed.0, unsubscribed.1, request, message, i));
            if error_first {
                lemma_waits_without_answer(errors.0, errors.1, request, task);
            }
            crate::client::laws::upkeep::lemma_dropped_subscription_is_gone(
                trackers.0,
                trackers.1,
                subscription,
                signal,
            );
        },
        Poll::Ready(Err(error)) => if error@ is Timeout {
            lemma_waits_without_answer(unsubscribed.0, unsubscribed.1, request, task);
            lemma_waits_without_answer(errors.0, errors.1, request, task);
        } else {
            let message = choose|message: rx::Error| #[trigger]
                crate::client::ops::unsubscribe::error_found(
                    unsubscribed,
                    errors,
                    request,
                    task,
                    error_first,
                    message,
                ) && error@ == crate::client::ops::received_error(message);
            let i = lemma_first_answer_is_taken(errors.0, errors.1, request, message);
            assert(answered(errors.0.items)[i] == message.request_model());
            assert(taken_out(errors.0, errors.1, request, message, i));
            if !error_first {
                lemma_waits_without_answer(unsubscribed.0, unsubscribed.1, request, task);
            }
        },
        Poll::Pending => {
            lemma_waits_without_answer(unsubscribed.0, unsubscribed.1, request, task);
            lemma_waits_without_answer(errors.0, errors.1, request, task);
        },
    }
}

} // verus!
