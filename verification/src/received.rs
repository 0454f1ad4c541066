//! A buffer for received messages of every type, as a transport that listens by itself fills it.

use vstd::prelude::*;

use crate::pollable::{PollableSet, PollableSetModel};
use crate::proto::rx;

verus! {

/// What [`ReceivedValues`] hold.
#[verifier::ext_equal]
pub struct ReceivedModel {
    /// See [`ReceivedValues::welcome`].
    pub welcome: PollableSetModel<rx::Welcome>,
    /// See [`ReceivedValues::abort`].
    pub abort: PollableSetModel<rx::Abort>,
    /// See [`ReceivedValues::goodbye`].
    pub goodbye: PollableSetModel<rx::Goodbye>,
    /// See [`ReceivedValues::error`].
    pub error: PollableSetModel<rx::Error>,
    /// See [`ReceivedValues::subscribed`].
    pub subscribed: PollableSetModel<rx::Subscribed>,
    /// See [`ReceivedValues::unsubscribed`].
    pub unsubscribed: PollableSetModel<rx::Unsubscribed>,
    /// See [`ReceivedValues::event`].
    pub event: PollableSetModel<rx::Event>,
    /// See [`ReceivedValues::published`].
    pub published: PollableSetModel<rx::Published>,
    /// See [`ReceivedValues::registered`].
    pub registered: PollableSetModel<rx::Registered>,
    /// See [`ReceivedValues::unregistered`].
    pub unregistered: PollableSetModel<rx::Unregistered>,
    /// See [`ReceivedValues::invocation`].
    pub invocation: PollableSetModel<rx::Invocation>,
    /// See [`ReceivedValues::result`].
    pub result: PollableSetModel<rx::Result>,
    /// See [`ReceivedValues::transport_errors`].
    pub transport_errors: PollableSetModel<String>,
}

/// Acts as a buffer for each type of returned message, and for the errors of the transport.
#[derive(Debug)]
pub struct ReceivedValues {
    /// The buffer of incoming "WELCOME" messages.
    pub welcome: PollableSet<rx::Welcome>,
    /// The buffer of incoming "ABORT" messages.
    pub abort: PollableSet<rx::Abort>,
    /// The buffer of incoming "GOODBYE" messages.
    pub goodbye: PollableSet<rx::Goodbye>,
    /// The buffer of incoming "ERROR" messages.
    pub error: PollableSet<rx::Error>,
    /// The buffer of incoming "SUBSCRIBED" messages.
    pub subscribed: PollableSet<rx::Subscribed>,
    /// The buffer of incoming "UNSUBSCRIBED" messages.
    pub unsubscribed: PollableSet<rx::Unsubscribed>,
    /// The buffer of incoming "EVENT" messages.
    pub event: PollableSet<rx::Event>,
    /// The buffer of incoming "PUBLISHED" messages.
    pub published: PollableSet<rx::Published>,
    /// The buffer of incoming "REGISTERED" messages.
    pub registered: PollableSet<rx::Registered>,
    /// The buffer of incoming "UNREGISTERED" messages.
    pub unregistered: PollableSet<rx::Unregistered>,
    /// The buffer of incoming "INVOCATION" messages.
    pub invocation: PollableSet<rx::Invocation>,
    /// The buffer of incoming "RESULT" messages.
    pub result: PollableSet<rx::Result>,
    /// The errors of the transport, by their texts.
    pub transport_errors: PollableSet<String>,
}

impl View for ReceivedValues {
    type V = ReceivedModel;

    open spec fn view(&self) -> ReceivedModel {
        ReceivedModel {
            welcome: self.welcome@,
            abort: self.abort@,
            goodbye: self.goodbye@,
            error: self.error@,
            subscribed: self.subscribed@,
            unsubscribed: self.unsubscribed@,
            event: self.event@,
            published: self.published@,
            registered: self.registered@,
            unregistered: self.unregistered@,
            invocation: self.invocation@,
            result: self.result@,
            transport_errors: self.transport_errors@,
        }
    }
}

impl ReceivedModel {
    /// Nothing has been received and nobody waits.
    pub open spec fn empty() -> Self {
        ReceivedModel {
            welcome: PollableSetModel::empty(),
            abort: PollableSetModel::empty(),
            goodbye: PollableSetModel::empty(),
            error: PollableSetModel::empty(),
            subscribed: PollableSetModel::empty(),
            unsubscribed: PollableSetModel::empty(),
            event: PollableSetModel::empty(),
            published: PollableSetModel::empty(),
            registered: PollableSetModel::empty(),
            unregistered: PollableSetModel::empty(),
            invocation: PollableSetModel::empty(),
            result: PollableSetModel::empty(),
            transport_errors: PollableSetModel::empty(),
        }
    }

    /// The number of messages.
    pub open spec fn len(self) -> nat {
        self.welcome.items.len()
            + self.abort.items.len()
            + self.goodbye.items.len()
            + self.error.items.len()
            + self.subscribed.items.len()
            + self.unsubscribed.items.len()
            + self.event.items.len()
            + self.published.items.len()
            + self.registered.items.len()
            + self.unregistered.items.len()
            + self.invocation.items.len()
            + self.result.items.len()
    }
}

impl Default for ReceivedValues {
    fn default() -> (received: Self)
        ensures
            received@ == ReceivedModel::empty(),
    {
        ReceivedValues {
            welcome: PollableSet::new(),
            abort: PollableSet::new(),
            goodbye: PollableSet::new(),
            error: PollableSet::new(),
            subscribed: PollableSet::new(),
            unsubscribed: PollableSet::new(),
            event: PollableSet::new(),
            published: PollableSet::new(),
            registered: PollableSet::new(),
            unregistered: PollableSet::new(),
            invocation: PollableSet::new(),
            result: PollableSet::new(),
            transport_errors: PollableSet::new(),
        }
    }
}

impl ReceivedValues {
    /// The number of messages of all types. Errors of the transport are not counted.
    pub fn len(&self) -> (len: usize)
        requires
            self@.len() <= usize::MAX,
        ensures
            len == self@.len(),
    {
        self.welcome.len()
            + self.abort.len()
            + self.goodbye.len()
            + self.error.len()
            + self.subscribed.len()
            + self.unsubscribed.len()
            + self.event.len()
            + self.published.len()
            + self.registered.len()
            + self.unregistered.len()
            + self.invocation.len()
            + self.result.len()
    }
}

/// What has been received is told of by its parts, each kind of message by its own set.
pub proof fn lemma_received_is_told(received: ReceivedValues)
    ensures
        received@.welcome == received.welcome@,
        received@.abort == received.abort@,
        received@.goodbye == received.goodbye@,
        received@.error == received.error@,
        received@.subscribed == received.subscribed@,
        received@.unsubscribed == received.unsubscribed@,
        received@.event == received.event@,
        received@.published == received.published@,
        received@.registered == received.registered@,
        received@.unregistered == received.unregistered@,
        received@.invocation == received.invocation@,
        received@.result == received.result@,
        received@.transport_errors == received.transport_errors@,
{
}

/// At first nothing has been received. A message of any kind counts as one more; an error of the
/// transport does not count.
pub proof fn lemma_each_message_counts(
    received: ReceivedModel,
    welcome: rx::Welcome,
    abort: rx::Abort,
    goodbye: rx::Goodbye,
    error: rx::Error,
    subscribed: rx::Subscribed,
    unsubscribed: rx::Unsubscribed,
    event: rx::Event,
    published: rx::Published,
    registered: rx::Registered,
    unregistered: rx::Unregistered,
    invocation: rx::Invocation,
    result: rx::Result,
    failure: String,
)
    ensures
        ReceivedModel::empty().len() == 0,
        ReceivedModel::empty().transport_errors.items.len() == 0,
        ({
            let n = received.len() + 1;
            &&& (ReceivedModel { welcome: received.welcome.inserted(welcome), ..received }).len()
                == n
            &&& (ReceivedModel { abort: received.abort.inserted(abort), ..received }).len() == n
            &&& (ReceivedModel { goodbye: received.goodbye.inserted(goodbye), ..received }).len()
                == n
            &&& (ReceivedModel { error: received.error.inserted(error), ..received }).len() == n
            &&& (ReceivedModel {
                subscribed: received.subscribed.inserted(subscribed),
                ..received
            }).len() == n
            &&& (ReceivedModel {
                unsubscribed: received.unsubscribed.inserted(unsubscribed),
                ..received
            }).len() == n
            &&& (ReceivedModel { event: received.event.inserted(event), ..received }).len() == n
            &&& (ReceivedModel {
                published: received.published.inserted(published),
                ..received
            }).len() == n
            &&& (ReceivedModel {
                registered: received.registered.inserted(registered),
                ..received
            }).len() == n
            &&& (ReceivedModel {
                unregistered: received.unregistered.inserted(unregistered),
                ..received
            }).len() == n
            &&& (ReceivedModel {
                invocation: received.invocation.inserted(invocation),
                ..received
            }).len() == n
            &&& (ReceivedModel { result: received.result.inserted(result), ..received }).len() == n
            &&& (ReceivedModel {
                transport_errors: received.transport_errors.inserted(failure),
                ..received
            }).len() == received.len()
        }),
{
}

} // verus!
