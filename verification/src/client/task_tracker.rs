//! Keeps track of the tasks of a client.

use vstd::prelude::*;

use crate::id::{Id, RouterScope};

verus! {

/// What a [`ClientTaskTracker`] knows of.
#[verifier::ext_equal]
pub struct TrackerModel {
    /// The signal by which the message listener is stopped, until it has been given.
    pub msg_listener: Option<u64>,
    /// The raw IDs of the subscriptions, each with the signal by which it is stopped, in the order
    /// in which they were first tracked.
    pub subscriptions: Seq<(u64, u64)>,
}

/// Position `i` is that of the subscription `id`.
pub open spec fn tracks(subscriptions: Seq<(u64, u64)>, i: int, id: u64) -> bool {
    0 <= i < subscriptions.len() && subscriptions[i].0 == id
}

/// Each subscription is tracked once.
pub open spec fn tracked_once(subscriptions: Seq<(u64, u64)>) -> bool {
    forall|i: int, j: int|
        0 <= i < j < subscriptions.len() ==> (#[trigger] subscriptions[i]).0 != (
        #[trigger] subscriptions[j]).0
}

/// Tracks all of the tasks owned by a client.
///
/// A task is stopped by a signal. Signals are known by numbers; whoever made them gives those that
/// a call returns.
#[derive(Debug)]
pub struct ClientTaskTracker {
    msg_listener_stop_sender: Option<u64>,
    subscriptions: Vec<(u64, u64)>,
}

impl View for ClientTaskTracker {
    type V = TrackerModel;

    closed spec fn view(&self) -> TrackerModel {
        TrackerModel {
            msg_listener: self.msg_listener_stop_sender,
            subscriptions: self.subscriptions@,
        }
    }
}

/// A subscription has been tracked with a signal. `displaced` is the signal that was tracked for it
/// before, if any.
pub open spec fn subscription_tracked(
    before: TrackerModel,
    after: TrackerModel,
    id: u64,
    sender: u64,
    displaced: Option<u64>,
) -> bool {
    &&& after.msg_listener == before.msg_listener
    &&& match displaced {
        Some(signal) => exists|i: int| #[trigger]
            tracks(before.subscriptions, i, id) && signal == before.subscriptions[i].1
                && after.subscriptions == before.subscriptions.update(i, (id, sender)),
        None => (forall|i: int| !#[trigger] tracks(before.subscriptions, i, id))
            && after.subscriptions == before.subscriptions.push((id, sender)),
    }
}

/// A subscription has been dropped. `signal` is the one that was tracked for it, if any.
pub open spec fn subscription_dropped(
    before: TrackerModel,
    after: TrackerModel,
    id: u64,
    signal: Option<u64>,
) -> bool {
    &&& after.msg_listener == before.msg_listener
    &&& match signal {
        Some(signal) => exists|i: int| #[trigger]
            tracks(before.subscriptions, i, id) && signal == before.subscriptions[i].1
                && after.subscriptions == before.subscriptions.remove(i),
        None => (forall|i: int| !#[trigger] tracks(before.subscriptions, i, id)) && after
            == before,
    }
}

/// The signals of all subscriptions, in their order.
pub open spec fn signals(subscriptions: Seq<(u64, u64)>) -> Seq<u64> {
    Seq::new(subscriptions.len(), |i: int| subscriptions[i].1)
}

impl ClientTaskTracker {
    #[verifier::type_invariant]
    spec fn inv(self) -> bool {
        tracked_once(self.subscriptions@)
    }

    /// Tracks the message listener, which is stopped by a signal.
    pub fn new(proto_msg_stop_sender: u64) -> (tracker: Self)
        ensures
            tracker@ == (TrackerModel {
                msg_listener: Some(proto_msg_stop_sender),
                subscriptions: Seq::empty(),
            }),
    {
        ClientTaskTracker {
            msg_listener_stop_sender: Some(proto_msg_stop_sender),
            subscriptions: Vec::new(),
        }
    }

    /// Tells the message listener to stop, if it has not been told so before.
    pub fn stop_message_listener(&mut self) -> (signal: Option<u64>)
        ensures
            signal == old(self)@.msg_listener,
            final(self)@ == (TrackerModel { msg_listener: None, ..old(self)@ }),
    {
        proof {
            use_type_invariant(&*self);
        }
        let signal = self.msg_listener_stop_sender;
        self.msg_listener_stop_sender = None;
        signal
    }

    fn position(&self, id: u64) -> (at: Option<usize>)
        ensures
            match at {
                Some(i) => tracks(self@.subscriptions, i as int, id),
                None => forall|i: int| !#[trigger] tracks(self@.subscriptions, i, id),
            },
    {
        let mut i: usize = 0;
        while i < self.subscriptions.len()
            invariant
                i <= self.subscriptions.len(),
                forall|j: int| 0 <= j < i ==> !#[trigger] tracks(self@.subscriptions, j, id),
            decreases self.subscriptions.len() - i,
        {
            if self.subscriptions[i].0 == id {
                return Some(i);
            }
            i += 1;
        }
        None
    }

    /// Tracks a subscription. A signal that was tracked for the same subscription before is
    /// returned: it is given up, so that its task stops.
    pub fn track_subscription(&mut self, id: Id<RouterScope>, sender: u64) -> (displaced: Option<
        u64,
    >)
        ensures
            subscription_tracked(old(self)@, final(self)@, id@, sender, displaced),
    {
        proof {
            use_type_invariant(&*self);
        }
        let raw: u64 = id.raw_value();
        let at = self.position(raw);
        let mut subscriptions: Vec<(u64, u64)> = Vec::new();
        std::mem::swap(&mut subscriptions, &mut self.subscriptions);
        let ghost before = subscriptions@;
        assert(before == old(self)@.subscriptions);
        match at {
            Some(i) => {
                let displaced: u64 = subscriptions[i].1;
                subscriptions.set(i, (raw, sender));
                self.subscriptions = subscriptions;
                assert(tracks(before, i as int, id@));
                Some(displaced)
            },
            None => {
                subscriptions.push((raw, sender));
                proof {
                    assert forall|i: int, j: int| 0 <= i < j < subscriptions@.len() implies (
                    #[trigger] subscriptions@[i]).0 != (#[trigger] subscriptions@[j]).0 by {
                        if j == before.len() {
                            assert(!tracks(old(self)@.subscriptions, i, raw));
                        }
                    }
                }
                self.subscriptions = subscriptions;
                None
            },
        }
    }

    /// Tells all subscriptions to stop.
    pub fn stop_all_subscriptions(&mut self) -> (stopped: Vec<u64>)
        ensures
            stopped@ == signals(old(self)@.subscriptions),
            final(self)@ == (TrackerModel { subscriptions: Seq::empty(), ..old(self)@ }),
    {
        let mut subscriptions: Vec<(u64, u64)> = Vec::new();
        std::mem::swap(&mut subscriptions, &mut self.subscriptions);
        let mut stopped: Vec<u64> = Vec::new();
        let mut i: usize = 0;
        while i < subscriptions.len()
            invariant
                i <= subscriptions.len(),
                stopped@ == signals(subscriptions@).take(i as int),
            decreases subscriptions.len() - i,
        {
            stopped.push(subscriptions[i].1);
            assert(signals(subscriptions@).take(i + 1) =~= signals(subscriptions@).take(
                i as int,
            ).push(subscriptions@[i as int].1));
            i += 1;
        }
        assert(signals(subscriptions@).take(i as int) =~= signals(subscriptions@));
        stopped
    }

    /// Tells a subscription to stop, if it is tracked.
    pub fn stop_subscription(&mut self, id: Id<RouterScope>) -> (signal: Option<u64>)
        ensures
            subscription_dropped(old(self)@, final(self)@, id@, signal),
    {
        proof {
            use_type_invariant(&*self);
        }
        match self.position(id.raw_value()) {
            Some(i) => {
                let mut subscriptions: Vec<(u64, u64)> = Vec::new();
                std::mem::swap(&mut subscriptions, &mut self.subscriptions);
                let ghost before = subscriptions@;
                let (_, signal) = subscriptions.remove(i);
                self.subscriptions = subscriptions;
                assert(tracks(before, i as int, id@));
                Some(signal)
            },
            None => None,
        }
    }

    /// Tells all tasks but the message listener to stop.
    pub fn stop_all_except_message_listener(&mut self) -> (stopped: Vec<u64>)
        ensures
            stopped@ == signals(old(self)@.subscriptions),
            final(self)@ == (TrackerModel { subscriptions: Seq::empty(), ..old(self)@ }),
    {
        self.stop_all_subscriptions()
    }
}

} // verus!
