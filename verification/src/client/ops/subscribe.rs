//! Subscribing.

use vstd::prelude::*;

use crate::buffer::{BufferModel, MessageBuffer};
use crate::client::ops::{
    await_reply, poll_reply, refused, Accepted, SendModel, SendOp, SendStage, Watch,
};
use crate::client::task_tracker::{ClientTaskTracker, TrackerModel};
use crate::client::{Broadcast, BroadcastModel, SubscriptionStream};
use crate::error::WampError;
use crate::id::{Id, RouterScope, SessionIdSource, SessionScope};
use crate::pollable::Poll;
use crate::proto::rx;
use crate::proto::{empty_dict, TxMessage, TxModel};
use crate::transport::TvModel;
use crate::uri::Uri;

verus! {

/// What SUBSCRIBE messages are called in errors.
pub const MESSAGE_TYPE: &'static str = "SUBSCRIBE";

/// The sending of a SUBSCRIBE message, at its beginning.
pub open spec fn subscribe_send(topic: Seq<char>, request: u64) -> SendModel {
    SendModel {
        accepted: Accepted::Established,
        message_type: MESSAGE_TYPE@,
        flush_type: MESSAGE_TYPE@,
        message: Some(TxModel::Subscribe { request, options: Map::empty(), topic }),
        stage: SendStage::WaitReady,
    }
}

/// Subscribing to a topic.
#[derive(Debug)]
pub struct SubscribeOp {
    /// The ID of the request.
    pub request: Id<SessionScope>,
    /// The sending of the SUBSCRIBE message.
    pub send: SendOp,
}

/// The events of a subscription.
#[derive(Debug)]
pub struct SubscriptionStreamImpl {
    /// The ID of the subscription.
    pub subscription_id: Id<RouterScope>,
}

/// What comes of a subscription.
#[derive(Debug)]
pub struct Subscribed {
    /// The events of the subscription.
    pub stream: SubscriptionStreamImpl,
    /// The signal of an earlier stream of the same subscription, which is given up.
    pub displaced: Option<u64>,
}

/// What looking for the reply to a request to subscribe comes to, while the session is established:
/// the first SUBSCRIBED message that answers it is taken, even if the time is up. The events of the
/// subscription have a queue then, and its task is tracked with the signal by which it is stopped.
pub open spec fn subscribed_polled(
    request: u64,
    watch: Watch,
    buffers: (BufferModel, BufferModel),
    trackers: (TrackerModel, TrackerModel),
    task: u64,
    stop_sender: u64,
    polled: Poll<Result<Subscribed, WampError>>,
) -> bool {
    match crate::client::ops::refusal(Accepted::Established, watch.state) {
        Some(error) => (polled matches Poll::Ready(Err(e)) && e@ == error) && buffers.1
            == buffers.0 && trackers.1 == trackers.0,
        None => match polled {
            Poll::Ready(Ok(subscribed)) => exists|message: rx::Subscribed|
                #![trigger message.subscription]
                {
                    let id = message.subscription@;
                    &&& crate::client::ops::reply_taken(
                        buffers.0.subscribed,
                        buffers.1.subscribed,
                        request,
                        message,
                    )
                    &&& buffers.1 == (BufferModel {
                        subscribed: buffers.1.subscribed,
                        ..buffers.0
                    }).with_event_queue(id)
                    &&& subscribed.stream.subscription_id@ == id
                    &&& crate::client::task_tracker::subscription_tracked(
                        trackers.0,
                        trackers.1,
                        id,
                        stop_sender,
                        subscribed.displaced,
                    )
                },
            Poll::Ready(Err(_)) | Poll::Pending => {
                &&& crate::client::ops::ended_by_clock(watch, polled)
                &&& crate::client::ops::reply_awaited(
                    buffers.0.subscribed,
                    buffers.1.subscribed,
                    request,
                    task,
                )
                &&& buffers.1 == (BufferModel { subscribed: buffers.1.subscribed, ..buffers.0 })
                &&& trackers.1 == trackers.0
            },
        },
    }
}

impl SubscribeOp {
    /// Begins to subscribe to a topic; the sink has to become ready first.
    pub fn new(topic: Uri, ids: &mut SessionIdSource) -> (op: Self)
        ensures
            final(ids)@ == crate::id::session_successor(old(ids)@),
            op.request@ == old(ids)@,
            op.send@ == subscribe_send(topic@, old(ids)@ as u64),
    {
        let request = Id::<SessionScope>::next(ids);
        let options = empty_dict();
        let subscribe = TxMessage::Subscribe { request, options, topic };
        SubscribeOp {
            request,
            send: SendOp::new(subscribe, Accepted::Established, MESSAGE_TYPE, MESSAGE_TYPE),
        }
    }

    /// Looks for the reply, once the message has been sent. `stop_sender` is the signal by which
    /// the subscription will be stopped.
    pub fn poll_reply(
        &self,
        watch: Watch,
        received: &mut MessageBuffer,
        task_tracker: &mut ClientTaskTracker,
        task: u64,
        stop_sender: u64,
    ) -> (polled: Poll<Result<Subscribed, WampError>>)
        requires
            self.send@.stage is Sent,
        ensures
            subscribed_polled(
                self.request@,
                watch,
                (old(received)@, final(received)@),
                (old(task_tracker)@, final(task_tracker)@),
                task,
                stop_sender,
                polled,
            ),
    {
        if let Some(error) = refused(Accepted::Established, watch.state) {
            return Poll::Ready(Err(error));
        }
        match poll_reply(&mut received.subscribed, self.request, task) {
            Poll::Pending => await_reply(watch),
            Poll::Ready(message) => {
                let id = message.subscription;
                received.add_event_queue(id.raw_value());
                let displaced = task_tracker.track_subscription(id, stop_sender);
                assert(message.subscription@ == id@);
                Poll::Ready(
                    Ok(
                        Subscribed {
                            stream: SubscriptionStreamImpl { subscription_id: id },
                            displaced,
                        },
                    ),
                )
            },
        }
    }
}

impl SubscriptionStream for SubscriptionStreamImpl {
    open spec fn subscription_model(&self) -> u64 {
        self.subscription_id@
    }

    fn get_subscription_id(&self) -> (id: Id<RouterScope>) {
        self.subscription_id
    }
}

/// The broadcast that an event brings. Values that it does not bring are empty.
pub open spec fn event_broadcast(event: rx::Event) -> BroadcastModel {
    BroadcastModel {
        arguments: match event.arguments {
            Some(list) => crate::transport::list_model(list@),
            None => Seq::empty(),
        },
        arguments_kw: match event.arguments_kw {
            Some(dict) => crate::transport::dict_model(dict),
            None => Map::empty(),
        },
    }
}

/// Makes a broadcast of an event.
pub fn broadcast_of(event: rx::Event) -> (broadcast: Broadcast)
    ensures
        broadcast@ == event_broadcast(event),
{
    let arguments = match event.arguments {
        Some(list) => list,
        None => {
            let list = Vec::new();
            assert(crate::transport::list_model(list@) =~= Seq::<TvModel>::empty());
            list
        },
    };
    let arguments_kw = match event.arguments_kw {
        Some(dict) => dict,
        None => empty_dict(),
    };
    Broadcast { arguments, arguments_kw }
}

impl SubscriptionStreamImpl {
    /// Looks for the next event. `stopped` says whether the stream has been told to stop, or can no
    /// longer be told so; nothing else ends it. While its subscription has no queue, there is no
    /// event either.
    pub fn poll_next(&self, stopped: bool, received: &mut MessageBuffer, task: u64) -> (polled:
        Poll<Option<Broadcast>>)
        ensures
            ({
                let id = self.subscription_id@;
                let queue = old(received)@.event[id];
                if stopped {
                    polled == Poll::Ready(None::<Broadcast>) && final(received)@ == old(received)@
                } else if !old(received)@.event.contains_key(id) {
                    polled is Pending && final(received)@ == old(received)@
                } else if queue.items.len() > 0 {
                    &&& polled matches Poll::Ready(Some(broadcast))
                    &&& broadcast@ == event_broadcast(queue.items[0])
                    &&& final(received)@ == (BufferModel {
                        event: old(received)@.event.insert(id, queue.taken(0)),
                        ..old(received)@
                    })
                } else {
                    &&& polled is Pending
                    &&& final(received)@ == (BufferModel {
                        event: old(received)@.event.insert(id, queue.awaited_by(task)),
                        ..old(received)@
                    })
                }
            }),
    {
        if stopped {
            return Poll::Ready(None);
        }
        match received.poll_event(self.subscription_id.raw_value(), task) {
            Some(Poll::Ready(event)) => Poll::Ready(Some(broadcast_of(event))),
            Some(Poll::Pending) => Poll::Pending,
            None => Poll::Pending,
        }
    }
}

} // verus!
