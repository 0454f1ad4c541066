//! Buffers for received messages.
//!
//! Because WAMP messages can be received in any order and different peer/peer interactions can
//! interleave themselves, a message buffer is needed.

use std::collections::HashMap;
use vstd::prelude::*;

use crate::pollable::{Poll, PollableSet, PollableSetModel};
use crate::proto::rx;

verus! {

broadcast use vstd::std_specs::hash::group_hash_axioms;

/// What [`Errors`] hold.
#[verifier::ext_equal]
pub struct ErrorsModel {
    /// Errors in response to SUBSCRIBE messages.
    pub subscribe: PollableSetModel<rx::Error>,
    /// Errors in response to UNSUBSCRIBE messages.
    pub unsubscribe: PollableSetModel<rx::Error>,
    /// Errors in response to PUBLISH messages.
    pub publish: PollableSetModel<rx::Error>,
    /// Errors in response to REGISTER messages.
    pub register: PollableSetModel<rx::Error>,
    /// Errors in response to UNREGISTER messages.
    pub unregister: PollableSetModel<rx::Error>,
    /// Errors in response to CALL messages.
    pub call: PollableSetModel<rx::Error>,
}

/// A structured map of incoming ERROR messages.
#[derive(Debug)]
pub struct Errors {
    /// Errors in response to SUBSCRIBE messages.
    pub subscribe: PollableSet<rx::Error>,
    /// Errors in response to UNSUBSCRIBE messages.
    pub unsubscribe: PollableSet<rx::Error>,
    /// Errors in response to PUBLISH messages.
    pub publish: PollableSet<rx::Error>,
    /// Errors in response to REGISTER messages.
    pub register: PollableSet<rx::Error>,
    /// Errors in response to UNREGISTER messages.
    pub unregister: PollableSet<rx::Error>,
    /// Errors in response to CALL messages.
    pub call: PollableSet<rx::Error>,
}

impl View for Errors {
    type V = ErrorsModel;

    open spec fn view(&self) -> ErrorsModel {
        ErrorsModel {
            subscribe: self.subscribe@,
            unsubscribe: self.unsubscribe@,
            publish: self.publish@,
            register: self.register@,
            unregister: self.unregister@,
            call: self.call@,
        }
    }
}

impl ErrorsModel {
    /// There are no errors.
    pub open spec fn empty() -> Self {
        ErrorsModel {
            subscribe: PollableSetModel::empty(),
            unsubscribe: PollableSetModel::empty(),
            publish: PollableSetModel::empty(),
            register: PollableSetModel::empty(),
            unregister: PollableSetModel::empty(),
            call: PollableSetModel::empty(),
        }
    }
}

impl Default for Errors {
    fn default() -> (errors: Self)
        ensures
            errors@ == ErrorsModel::empty(),
    {
        Errors {
            subscribe: PollableSet::new(),
            unsubscribe: PollableSet::new(),
            publish: PollableSet::new(),
            register: PollableSet::new(),
            unregister: PollableSet::new(),
            call: PollableSet::new(),
        }
    }
}

/// What a [`MessageBuffer`] holds.
#[verifier::ext_equal]
pub struct BufferModel {
    /// See [`MessageBuffer::goodbye`].
    pub goodbye: PollableSetModel<rx::Goodbye>,
    /// See [`MessageBuffer::errors`].
    pub errors: ErrorsModel,
    /// See [`MessageBuffer::subscribed`].
    pub subscribed: PollableSetModel<rx::Subscribed>,
    /// See [`MessageBuffer::unsubscribed`].
    pub unsubscribed: PollableSetModel<rx::Unsubscribed>,
    /// See [`MessageBuffer::event`].
    pub event: Map<u64, PollableSetModel<rx::Event>>,
    /// See [`MessageBuffer::published`].
    pub published: PollableSetModel<rx::Published>,
    /// See [`MessageBuffer::registered`].
    pub registered: PollableSetModel<rx::Registered>,
    /// See [`MessageBuffer::unregistered`].
    pub unregistered: PollableSetModel<rx::Unregistered>,
    /// See [`MessageBuffer::invocation`].
    pub invocation: PollableSetModel<rx::Invocation>,
    /// See [`MessageBuffer::result`].
    pub result: PollableSetModel<rx::Result>,
}

/// Acts as a buffer for each type of returned message, and any possible errors
/// (either in the transport layer or the protocol).
#[derive(Debug)]
pub struct MessageBuffer {
    /// The buffer of incoming "GOODBYE" messages. This is not populated with
    /// messages unless the client triggered the disconnection.
    pub goodbye: PollableSet<rx::Goodbye>,
    /// The buffer of incoming "ERROR" messages.
    pub errors: Errors,
    /// The buffer of incoming "SUBSCRIBED" messages.
    pub subscribed: PollableSet<rx::Subscribed>,
    /// The buffer of incoming "UNSUBSCRIBED" messages.
    pub unsubscribed: PollableSet<rx::Unsubscribed>,
    /// The buffers of incoming "EVENT" messages, one for each subscription, by the raw ID of the
    /// subscription.
    pub event: HashMap<u64, PollableSet<rx::Event>>,
    /// The buffer of incoming "PUBLISHED" messages.
    pub published: PollableSet<rx::Published>,
    /// The buffer of incoming "REGISTERED" messages.
    pub registered: PollableSet<rx::Registered>,
    /// The buffer of incoming "UNREGISTERED" messages.
    pub unregistered: PollableSet<rx::Unregistered>,
    /// The buffer of incoming "INVOCATION" messages.
    pub invocation: PollableSet<rx::Invocation>,
    /// The buffer of incoming "RESULT" messages.
    pub result: PollableSet<rx::Result>,
}

/// What the event queues hold, by the raw ID of the subscription.
pub open spec fn queues_model(queues: Map<u64, PollableSet<rx::Event>>) -> Map<
    u64,
    PollableSetModel<rx::Event>,
> {
    queues.map_values(|queue: PollableSet<rx::Event>| queue@)
}

impl View for MessageBuffer {
    type V = BufferModel;

    open spec fn view(&self) -> BufferModel {
        BufferModel {
            goodbye: self.goodbye@,
            errors: self.errors@,
            subscribed: self.subscribed@,
            unsubscribed: self.unsubscribed@,
            event: queues_model(self.event@),
            published: self.published@,
            registered: self.registered@,
            unregistered: self.unregistered@,
            invocation: self.invocation@,
            result: self.result@,
        }
    }
}

impl BufferModel {
    /// Nothing has been received and nobody waits.
    pub open spec fn empty() -> Self {
        BufferModel {
            goodbye: PollableSetModel::empty(),
            errors: ErrorsModel::empty(),
            subscribed: PollableSetModel::empty(),
            unsubscribed: PollableSetModel::empty(),
            event: Map::empty(),
            published: PollableSetModel::empty(),
            registered: PollableSetModel::empty(),
            unregistered: PollableSetModel::empty(),
            invocation: PollableSetModel::empty(),
            result: PollableSetModel::empty(),
        }
    }

    /// The events of a subscription have a queue: the one that they had, or else an empty one.
    pub open spec fn with_event_queue(self, id: u64) -> Self {
        BufferModel {
            event: if self.event.contains_key(id) {
                self.event
            } else {
                self.event.insert(id, PollableSetModel::empty())
            },
            ..self
        }
    }
}

impl Default for MessageBuffer {
    fn default() -> (buffer: Self)
        ensures
            buffer@ == BufferModel::empty(),
    {
        let buffer = MessageBuffer {
            goodbye: PollableSet::new(),
            errors: Errors::default(),
            subscribed: PollableSet::new(),
            unsubscribed: PollableSet::new(),
            event: HashMap::new(),
            published: PollableSet::new(),
            registered: PollableSet::new(),
            unregistered: PollableSet::new(),
            invocation: PollableSet::new(),
            result: PollableSet::new(),
        };
        assert(buffer@.event =~= Map::empty());
        buffer
    }
}

impl MessageBuffer {
    /// Adds an event to the queue of its subscription. The tasks to be notified are returned, or
    /// `None` if there is no such queue.
    pub fn insert_event(&mut self, event: rx::Event) -> (woken: Option<Vec<u64>>)
        ensures
            match woken {
                Some(tasks) => {
                    let queue = old(self)@.event[event.subscription@];
                    &&& old(self)@.event.contains_key(event.subscription@)
                    &&& tasks@ == queue.waiting
                    &&& final(self)@ == (BufferModel {
                        event: old(self)@.event.insert(
                            event.subscription@,
                            queue.inserted(event),
                        ),
                        ..old(self)@
                    })
                },
                None => !old(self)@.event.contains_key(event.subscription@) && final(self)@ == old(
                    self,
                )@,
            },
    {
        let id: u64 = event.subscription.raw_value();
        match self.event.remove(&id) {
            Some(queue) => {
                let mut queue = queue;
                let woken = queue.insert(event);
                self.event.insert(id, queue);
                assert(self@.event =~= old(self)@.event.insert(id, queue@));
                Some(woken)
            },
            None => {
                assert(self.event@ =~= old(self).event@);
                None
            },
        }
    }

    /// Takes the first event out of the queue of a subscription. Without such a queue, it is `None`.
    pub fn poll_event(&mut self, id: u64, task: u64) -> (polled: Option<Poll<rx::Event>>)
        ensures
            match polled {
                Some(Poll::Ready(event)) => {
                    let queue = old(self)@.event[id];
                    &&& old(self)@.event.contains_key(id)
                    &&& queue.items.len() > 0
                    &&& event == queue.items[0]
                    &&& final(self)@ == (BufferModel {
                        event: old(self)@.event.insert(id, queue.taken(0)),
                        ..old(self)@
                    })
                },
                Some(Poll::Pending) => {
                    let queue = old(self)@.event[id];
                    &&& old(self)@.event.contains_key(id)
                    &&& queue.items.len() == 0
                    &&& final(self)@ == (BufferModel {
                        event: old(self)@.event.insert(id, queue.awaited_by(task)),
                        ..old(self)@
                    })
                },
                None => !old(self)@.event.contains_key(id) && final(self)@ == old(self)@,
            },
    {
        match self.event.remove(&id) {
            Some(queue) => {
                let mut queue = queue;
                let polled = queue.poll_take_any(task);
                self.event.insert(id, queue);
                assert(self@.event =~= old(self)@.event.insert(id, queue@));
                Some(polled)
            },
            None => {
                assert(self.event@ =~= old(self).event@);
                None
            },
        }
    }

    /// Starts an empty queue for the events of a subscription, unless there is one already.
    pub fn add_event_queue(&mut self, id: u64)
        ensures
            final(self)@ == old(self)@.with_event_queue(id),
    {
        if !self.event.contains_key(&id) {
            self.event.insert(id, PollableSet::new());
            assert(self@.event =~= old(self)@.event.insert(id, PollableSetModel::empty()));
        }
    }

    /// Drops the queue for the events of a subscription.
    pub fn remove_event_queue(&mut self, id: u64)
        ensures
            final(self)@ == (BufferModel { event: old(self)@.event.remove(id), ..old(self)@ }),
    {
        self.event.remove(&id);
        assert(self@.event =~= old(self)@.event.remove(id));
    }
}

/// A buffer is told of by its parts, each kind of message by its own set, and the events by the
/// queues of their subscriptions.
pub proof fn lemma_buffer_is_told(buffer: MessageBuffer)
    ensures
        buffer@.event.dom() == buffer.event@.dom(),
        forall|id: u64| #[trigger]
            buffer@.event.contains_key(id) ==> buffer@.event[id] == buffer.event@[id]@,
        buffer@.goodbye == buffer.goodbye@,
        buffer@.subscribed == buffer.subscribed@,
        buffer@.unsubscribed == buffer.unsubscribed@,
        buffer@.published == buffer.published@,
        buffer@.registered == buffer.registered@,
        buffer@.unregistered == buffer.unregistered@,
        buffer@.invocation == buffer.invocation@,
        buffer@.result == buffer.result@,
        buffer@.errors.subscribe == buffer.errors.subscribe@,
        buffer@.errors.unsubscribe == buffer.errors.unsubscribe@,
        buffer@.errors.publish == buffer.errors.publish@,
        buffer@.errors.register == buffer.errors.register@,
        buffer@.errors.unregister == buffer.errors.unregister@,
        buffer@.errors.call == buffer.errors.call@,
{
    assert(buffer@.event.dom() =~= buffer.event@.dom());
}

/// A buffer starts with nothing in it.
pub proof fn lemma_buffer_starts_empty()
    ensures
        BufferModel::empty().goodbye.items.len() == 0,
        BufferModel::empty().subscribed.items.len() == 0,
        BufferModel::empty().unsubscribed.items.len() == 0,
        BufferModel::empty().published.items.len() == 0,
        BufferModel::empty().registered.items.len() == 0,
        BufferModel::empty().unregistered.items.len() == 0,
        BufferModel::empty().invocation.items.len() == 0,
        BufferModel::empty().result.items.len() == 0,
        BufferModel::empty().errors.subscribe.items.len() == 0,
        BufferModel::empty().errors.unsubscribe.items.len() == 0,
        BufferModel::empty().errors.publish.items.len() == 0,
        BufferModel::empty().errors.register.items.len() == 0,
        BufferModel::empty().errors.unregister.items.len() == 0,
        BufferModel::empty().errors.call.items.len() == 0,
        forall|id: u64| !(#[trigger] BufferModel::empty().event.contains_key(id)),
{
}

/// A subscription that gets a queue has one then; queues that are there are kept as they are, and no
/// other comes. Nothing else changes.
pub proof fn lemma_queue_is_added(buffer: BufferModel, id: u64)
    ensures
        ({
            let after = buffer.with_event_queue(id);
            &&& after == (BufferModel { event: after.event, ..buffer })
            &&& after.event.contains_key(id)
            &&& !buffer.event.contains_key(id) ==> after.event[id].items.len() == 0
            &&& forall|other: u64| #[trigger]
                buffer.event.contains_key(other) ==> after.event.contains_key(other)
                    && after.event[other] == buffer.event[other]
            &&& forall|other: u64| #[trigger]
                after.event.contains_key(other) ==> other == id || buffer.event.contains_key(other)
        }),
{
}

} // verus!
