//! Subscribing, and listening for events.

use vstd::prelude::*;

use crate::client::futures::{
    check_for_timeout, FutureError, FutureErrorModel, QueueStage, QueueStep, QueuedModel,
    QueuedSend, SinkPoll,
};
use crate::client::ops::poll_reply;
use crate::client::ops::subscribe::broadcast_of;
use crate::client::task_tracker::{ClientTaskTracker, TrackerModel};
use crate::client::{Broadcast, ClientState};
use crate::error::{WampError, WampErrorModel};
use crate::id::{Id, RouterScope, SessionIdSource, SessionScope};
use crate::pollable::{Poll, PollableSet};
use crate::proto::rx;
use crate::proto::{empty_dict, TxMessage, TxModel};
use crate::received::{ReceivedModel, ReceivedValues};
use crate::uri::Uri;

verus! {

/// Subscribing to a topic: a SUBSCRIBE message is sent, and a SUBSCRIBED message is waited for.
#[derive(Debug)]
pub struct SubscriptionFuture {
    /// The ID of the request.
    pub request_id: Id<SessionScope>,
    /// The sending of the SUBSCRIBE message.
    pub send: QueuedSend,
}

/// What comes of a subscription.
#[derive(Debug)]
pub struct NewSubscription {
    /// The ID of the subscription.
    pub subscription: Id<RouterScope>,
    /// The signal of an earlier listener of the same subscription, which is given up.
    pub displaced: Option<u64>,
}

/// The error that ends a subscription, whatever else has happened: its time is up, or the session
/// is not established.
pub open spec fn refusal(timed_out: bool, state: ClientState) -> Option<FutureErrorModel> {
    if timed_out {
        Some(FutureErrorModel::Wamp(WampErrorModel::Timeout))
    } else if !(state is Established) {
        Some(FutureErrorModel::Wamp(WampErrorModel::InvalidClientState))
    } else {
        None
    }
}

fn check(timed_out: bool, state: ClientState) -> (result: Result<(), FutureError>)
    ensures
        match result {
            Ok(()) => refusal(timed_out, state) is None,
            Err(error) => refusal(timed_out, state) == Some(error@),
        },
{
    match check_for_timeout(timed_out) {
        Err(error) => return Err(error),
        Ok(()) => {},
    }
    if state.is_established() {
        Ok(())
    } else {
        Err(FutureError::Wamp(WampError::InvalidClientState))
    }
}

impl SubscriptionFuture {
    /// Begins to subscribe to a topic.
    pub fn new(topic: Uri, ids: &mut SessionIdSource) -> (future: Self)
        ensures
            final(ids)@ == crate::id::session_successor(old(ids)@),
            future.request_id@ == old(ids)@,
            future.send@ == (QueuedModel {
                stage: QueueStage::StartSend,
                message: Some(
                    TxModel::Subscribe {
                        request: old(ids)@ as u64,
                        options: Map::empty(),
                        topic: topic@,
                    },
                ),
            }),
    {
        let request_id = Id::<SessionScope>::next(ids);
        let options = empty_dict();
        SubscriptionFuture {
            request_id,
            send: QueuedSend::new(TxMessage::Subscribe { request: request_id, options, topic }),
        }
    }

    /// Goes on with sending after the transport has answered, unless the time is up or the session
    /// is not established.
    pub fn poll_sink(&mut self, timed_out: bool, client_state: ClientState, polled: SinkPoll) -> (
    step: QueueStep)
        ensures
            final(self).request_id == old(self).request_id,
            match refusal(timed_out, client_state) {
                Some(expected) => {
                    &&& step matches QueueStep::Failed(error)
                    &&& error@ == expected
                    &&& final(self).send@ == old(self).send@
                },
                None => {
                    &&& final(self).send@ == crate::client::futures::queued_step(
                        old(self).send@,
                        polled,
                    )
                    &&& crate::client::futures::step_follows(old(self).send@.stage, polled, step)
                },
            },
    {
        match check(timed_out, client_state) {
            Err(error) => QueueStep::Failed(error),
            Ok(()) => self.send.sink_polled(polled),
        }
    }

    /// Waits for the SUBSCRIBED message that answers the request, once that has been sent, unless
    /// the time is up or the session is not established. With it the listener of the subscription
    /// is tracked, with the signal by which it is stopped.
    pub fn poll_subscribed(
        &self,
        timed_out: bool,
        client_state: ClientState,
        received: &mut ReceivedValues,
        subscriptions: &mut ClientTaskTracker,
        task: u64,
        stop_sender: u64,
    ) -> (polled: Poll<Result<NewSubscription, FutureError>>)
        requires
            self.send@.stage is Sent,
        ensures
            subscription_polled(
                self.request_id@,
                refusal(timed_out, client_state),
                (old(received)@, final(received)@),
                (old(subscriptions)@, final(subscriptions)@),
                task,
                stop_sender,
                polled,
            ),
    {
        match check(timed_out, client_state) {
            Err(error) => return Poll::Ready(Err(error)),
            Ok(()) => {},
        }
        match poll_reply(&mut received.subscribed, self.request_id, task) {
            Poll::Pending => Poll::Pending,
            Poll::Ready(message) => {
                let subscription = message.subscription;
                let displaced = subscriptions.track_subscription(subscription, stop_sender);
                assert(message.subscription == subscription);
                Poll::Ready(Ok(NewSubscription { subscription, displaced }))
            },
        }
    }
}

/// What waiting for a SUBSCRIBED message comes to.
pub open spec fn subscription_polled(
    request: u64,
    refusal: Option<FutureErrorModel>,
    received: (ReceivedModel, ReceivedModel),
    trackers: (TrackerModel, TrackerModel),
    task: u64,
    stop_sender: u64,
    polled: Poll<Result<NewSubscription, FutureError>>,
) -> bool {
    let subscribed = (received.0.subscribed, received.1.subscribed);
    match refusal {
        Some(expected) => (polled matches Poll::Ready(Err(error)) && error@ == expected)
            && received.1 == received.0 && trackers.1 == trackers.0,
        None => received.1 == (ReceivedModel { subscribed: subscribed.1, ..received.0 })
            && match polled {
            Poll::Ready(Ok(new)) => exists|message: rx::Subscribed|
                #![trigger message.subscription]
                {
                    &&& crate::client::ops::reply_taken(
                        subscribed.0,
                        subscribed.1,
                        request,
                        message,
                    )
                    &&& new.subscription == message.subscription
                    &&& crate::client::task_tracker::subscription_tracked(
                        trackers.0,
                        trackers.1,
                        message.subscription@,
                        stop_sender,
                        new.displaced,
                    )
                },
            Poll::Ready(Err(_)) => false,
            Poll::Pending => trackers.1 == trackers.0 && crate::client::ops::reply_awaited(
                subscribed.0,
                subscribed.1,
                request,
                task,
            ),
        },
    }
}

/// Listens for new events published to a channel we're subscribed to.
#[derive(Debug)]
pub struct SubscriptionListener {
    /// The ID of the subscription.
    pub subscription_id: Id<RouterScope>,
}

/// The item at `i` is the first event of a subscription.
pub open spec fn first_event(items: Seq<rx::Event>, i: int, subscription: u64) -> bool {
    &&& 0 <= i < items.len()
    &&& items[i].subscription@ == subscription
    &&& no_event(items.take(i), subscription)
}

/// No item is an event of a subscription.
pub open spec fn no_event(items: Seq<rx::Event>, subscription: u64) -> bool {
    forall|j: int| #![trigger items[j]] 0 <= j < items.len() ==> items[j].subscription@
        != subscription
}

fn poll_event(events: &mut PollableSet<rx::Event>, subscription: Id<RouterScope>, task: u64) -> (
polled: Poll<rx::Event>)
    ensures
        match polled {
            Poll::Ready(event) => exists|i: int| #[trigger]
                first_event(old(events)@.items, i, subscription@) && event == old(events)@.items[i]
                    && final(events)@ == old(events)@.taken(i),
            Poll::Pending => no_event(old(events)@.items, subscription@) && final(events)@ == old(
                events,
            )@.awaited_by(task),
        },
{
    let wanted = |event: &rx::Event| -> (ours: bool)
        ensures
            ours == (event.subscription@ == subscription@),
        { event.subscription == subscription };
    let ghost before = events@;
    let polled = events.poll_take(task, wanted);
    proof {
        if polled is Ready {
            let i = choose|i: int|
                #![trigger before.items[i]]
                crate::pollable::picks(wanted, before.items, i) && polled->Ready_0
                    == before.items[i] && events@ == before.taken(i);
            let front = before.items.take(i);
            assert forall|j: int|
                #![trigger front[j]]
                0 <= j < front.len() implies front[j].subscription@ != subscription@ by {
                assert(call_ensures(wanted, (&before.items[j],), false));
            }
            assert(first_event(before.items, i, subscription@));
        } else {
            assert forall|j: int|
                #![trigger before.items[j]]
                0 <= j < before.items.len() implies before.items[j].subscription@
                != subscription@ by {
                assert(call_ensures(wanted, (&before.items[j],), false));
            }
        }
    }
    polled
}

impl SubscriptionListener {
    /// Looks for the next event of the subscription. `stopped` says whether the listener has been
    /// told to stop, or can no longer be told so; then it ends.
    pub fn poll_next(&self, stopped: bool, values: &mut ReceivedValues, task: u64) -> (polled: Poll<
        Option<Broadcast>,
    >)
        ensures
            ({
                let events = old(values)@.event;
                if stopped {
                    polled == Poll::Ready(None::<Broadcast>) && final(values)@ == old(values)@
                } else {
                    match polled {
                        Poll::Ready(Some(broadcast)) => exists|i: int| #[trigger]
                            first_event(events.items, i, self.subscription_id@) && broadcast@
                                == crate::client::ops::subscribe::event_broadcast(events.items[i])
                                && final(values)@ == (ReceivedModel {
                                event: events.taken(i),
                                ..old(values)@
                            }),
                        Poll::Ready(None) => false,
                        Poll::Pending => {
                            &&& no_event(events.items, self.subscription_id@)
                            &&& final(values)@ == (ReceivedModel {
                                event: events.awaited_by(task),
                                ..old(values)@
                            })
                        },
                    }
                }
            }),
    {
        if stopped {
            return Poll::Ready(None);
        }
        let ghost before = values@;
        let next = poll_event(&mut values.event, self.subscription_id, task);
        proof {
            if next is Ready {
                let i = choose|i: int| #[trigger]
                    first_event(before.event.items, i, self.subscription_id@) && next->Ready_0
                        == before.event.items[i] && values@.event == before.event.taken(i);
                assert(values@ == (ReceivedModel { event: before.event.taken(i), ..before }));
            }
        }
        match next {
            Poll::Ready(event) => Poll::Ready(Some(broadcast_of(event))),
            Poll::Pending => Poll::Pending,
        }
    }
}

} // verus!
