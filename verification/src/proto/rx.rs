//! The various types of messages which can be received by the client as part of WAMP.

use vstd::prelude::*;

use crate::id::{GlobalScope, Id, RouterScope, SessionScope};
use crate::proto::{msg_code, Dict, List};
use crate::transport::{same_arguments, same_arguments_kw, TvModel};
use crate::uri::Uri;

verus! {

/// What a received message says, apart from how it is stored.
#[verifier::ext_equal]
pub enum RxModel {
    /// See [`Welcome`].
    Welcome { session: u64, details: Map<Seq<char>, TvModel> },
    /// See [`Abort`].
    Abort { details: Map<Seq<char>, TvModel>, reason: Seq<char> },
    /// See [`Goodbye`].
    Goodbye { details: Map<Seq<char>, TvModel>, reason: Seq<char> },
    /// See [`Error`].
    Error {
        request_type: u64,
        request: u64,
        details: Map<Seq<char>, TvModel>,
        error: Seq<char>,
        arguments: Option<Seq<TvModel>>,
        arguments_kw: Option<Map<Seq<char>, TvModel>>,
    },
    /// See [`Subscribed`].
    Subscribed { request: u64, subscription: u64 },
    /// See [`Unsubscribed`].
    Unsubscribed { request: u64 },
    /// See [`Event`].
    Event {
        subscription: u64,
        publication: u64,
        details: Map<Seq<char>, TvModel>,
        arguments: Option<Seq<TvModel>>,
        arguments_kw: Option<Map<Seq<char>, TvModel>>,
    },
    /// See [`Published`].
    Published { request: u64, publication: u64 },
    /// See [`Registered`].
    Registered { request: u64, registration: u64 },
    /// See [`Unregistered`].
    Unregistered { request: u64 },
    /// See [`Invocation`].
    Invocation {
        request: u64,
        registration: u64,
        details: Map<Seq<char>, TvModel>,
        arguments: Option<Seq<TvModel>>,
        arguments_kw: Option<Map<Seq<char>, TvModel>>,
    },
    /// See [`Result`].
    Result {
        request: u64,
        details: Map<Seq<char>, TvModel>,
        arguments: Option<Seq<TvModel>>,
        arguments_kw: Option<Map<Seq<char>, TvModel>>,
    },
}

/// A received message.
#[derive(Debug)]
pub enum RxMessage {
    /// See [`Welcome`].
    Welcome(Welcome),
    /// See [`Abort`].
    Abort(Abort),
    /// See [`Goodbye`].
    Goodbye(Goodbye),
    /// See [`Error`].
    Error(Error),
    /// See [`Subscribed`].
    Subscribed(Subscribed),
    /// See [`Unsubscribed`].
    Unsubscribed(Unsubscribed),
    /// See [`Event`].
    Event(Event),
    /// See [`Published`].
    Published(Published),
    /// See [`Registered`].
    Registered(Registered),
    /// See [`Unregistered`].
    Unregistered(Unregistered),
    /// See [`Invocation`].
    Invocation(Invocation),
    /// See [`Result`].
    Result(Result),
}

impl View for RxMessage {
    type V = RxModel;

    open spec fn view(&self) -> RxModel {
        match self {
            RxMessage::Welcome(message) => message@,
            RxMessage::Abort(message) => message@,
            RxMessage::Goodbye(message) => message@,
            RxMessage::Error(message) => message@,
            RxMessage::Subscribed(message) => message@,
            RxMessage::Unsubscribed(message) => message@,
            RxMessage::Event(message) => message@,
            RxMessage::Published(message) => message@,
            RxMessage::Registered(message) => message@,
            RxMessage::Unregistered(message) => message@,
            RxMessage::Invocation(message) => message@,
            RxMessage::Result(message) => message@,
        }
    }
}

impl PartialEq for RxMessage {
    fn eq(&self, other: &Self) -> (same: bool) {
        match (self, other) {
            (RxMessage::Welcome(a), RxMessage::Welcome(b)) => *a == *b,
            (RxMessage::Abort(a), RxMessage::Abort(b)) => *a == *b,
            (RxMessage::Goodbye(a), RxMessage::Goodbye(b)) => *a == *b,
            (RxMessage::Error(a), RxMessage::Error(b)) => *a == *b,
            (RxMessage::Subscribed(a), RxMessage::Subscribed(b)) => *a == *b,
            (RxMessage::Unsubscribed(a), RxMessage::Unsubscribed(b)) => *a == *b,
            (RxMessage::Event(a), RxMessage::Event(b)) => *a == *b,
            (RxMessage::Published(a), RxMessage::Published(b)) => *a == *b,
            (RxMessage::Registered(a), RxMessage::Registered(b)) => *a == *b,
            (RxMessage::Unregistered(a), RxMessage::Unregistered(b)) => *a == *b,
            (RxMessage::Invocation(a), RxMessage::Invocation(b)) => *a == *b,
            (RxMessage::Result(a), RxMessage::Result(b)) => *a == *b,
            _ => false,
        }
    }
}

impl Eq for RxMessage {

}

impl vstd::std_specs::cmp::PartialEqSpecImpl for RxMessage {
    open spec fn obeys_eq_spec() -> bool {
        true
    }

    open spec fn eq_spec(&self, other: &Self) -> bool {
        self@ == other@
    }
}

/// Marker trait for received messages. Do not implement this yourself.
pub trait ReceivedMessage {
    /// The identifying integer for this message.
    const MSG_CODE: u64;
}

/// Session management; used by all types of peers. Answers a HELLO message.
#[derive(Debug)]
pub struct Welcome {
    /// The ID of the session.
    pub session: Id<GlobalScope>,
    /// Describes the router's capabilities.
    pub details: Dict,
}

impl ReceivedMessage for Welcome {
    const MSG_CODE: u64 = msg_code::WELCOME;
}

impl View for Welcome {
    type V = RxModel;

    open spec fn view(&self) -> RxModel {
        RxModel::Welcome {
            session: self.session@,
            details: crate::transport::dict_model(self.details),
        }
    }
}

impl PartialEq for Welcome {
    fn eq(&self, other: &Self) -> (same: bool) {
        self.session == other.session && self.details == other.details
    }
}

impl Eq for Welcome {

}

impl vstd::std_specs::cmp::PartialEqSpecImpl for Welcome {
    open spec fn obeys_eq_spec() -> bool {
        true
    }

    open spec fn eq_spec(&self, other: &Self) -> bool {
        self@ == other@
    }
}

/// Session management; used by all types of peers. Ends a session that was not established, or
/// one in which the protocol was violated.
#[derive(Debug)]
pub struct Abort {
    /// Optional, additional information.
    pub details: Dict,
    /// A somewhat known URI describing why the session is being aborted.
    pub reason: Uri,
}

impl ReceivedMessage for Abort {
    const MSG_CODE: u64 = msg_code::ABORT;
}

impl View for Abort {
    type V = RxModel;

    open spec fn view(&self) -> RxModel {
        RxModel::Abort {
            details: crate::transport::dict_model(self.details),
            reason: self.reason@,
        }
    }
}

impl PartialEq for Abort {
    fn eq(&self, other: &Self) -> (same: bool) {
        self.details == other.details && self.reason == other.reason
    }
}

impl Eq for Abort {

}

impl vstd::std_specs::cmp::PartialEqSpecImpl for Abort {
    open spec fn obeys_eq_spec() -> bool {
        true
    }

    open spec fn eq_spec(&self, other: &Self) -> bool {
        self@ == other@
    }
}

/// Session management; used by all types of peers. Ends a session, or acknowledges its end.
#[derive(Debug)]
pub struct Goodbye {
    /// Optional, additional information.
    pub details: Dict,
    /// A somewhat known URI describing why the session is being closed.
    pub reason: Uri,
}

impl ReceivedMessage for Goodbye {
    const MSG_CODE: u64 = msg_code::GOODBYE;
}

impl View for Goodbye {
    type V = RxModel;

    open spec fn view(&self) -> RxModel {
        RxModel::Goodbye {
            details: crate::transport::dict_model(self.details),
            reason: self.reason@,
        }
    }
}

impl PartialEq for Goodbye {
    fn eq(&self, other: &Self) -> (same: bool) {
        self.details == other.details && self.reason == other.reason
    }
}

impl Eq for Goodbye {

}

impl vstd::std_specs::cmp::PartialEqSpecImpl for Goodbye {
    open spec fn obeys_eq_spec() -> bool {
        true
    }

    open spec fn eq_spec(&self, other: &Self) -> bool {
        self@ == other@
    }
}

/// Message type used by all roles to indicate problems with a request.
#[derive(Debug)]
pub struct Error {
    /// The message code for the type of message that caused the error.
    pub request_type: u64,
    /// The ID of the request that caused the error.
    pub request: Id<SessionScope>,
    /// Optional details describing the error.
    pub details: Dict,
    /// A somewhat known URI describing the error.
    pub error: Uri,
    /// A list of positional data.
    pub arguments: Option<List>,
    /// A dictionary of key-value data.
    pub arguments_kw: Option<Dict>,
}

impl ReceivedMessage for Error {
    const MSG_CODE: u64 = msg_code::ERROR;
}

impl View for Error {
    type V = RxModel;

    open spec fn view(&self) -> RxModel {
        RxModel::Error {
            request_type: self.request_type,
            request: self.request@,
            details: crate::transport::dict_model(self.details),
            error: self.error@,
            arguments: crate::transport::arguments_model(self.arguments),
            arguments_kw: crate::transport::arguments_kw_model(self.arguments_kw),
        }
    }
}

impl PartialEq for Error {
    fn eq(&self, other: &Self) -> (same: bool) {
        self.request_type == other.request_type && self.request == other.request
            && self.details == other.details && self.error == other.error
            && same_arguments(&self.arguments, &other.arguments)
            && same_arguments_kw(&self.arguments_kw, &other.arguments_kw)
    }
}

impl Eq for Error {

}

impl vstd::std_specs::cmp::PartialEqSpecImpl for Error {
    open spec fn obeys_eq_spec() -> bool {
        true
    }

    open spec fn eq_spec(&self, other: &Self) -> bool {
        self@ == other@
    }
}

/// Sent by brokers to subscribers after they are subscribed to a topic.
#[derive(Debug)]
pub struct Subscribed {
    /// The ID of the request to subscribe.
    pub request: Id<SessionScope>,
    /// The ID of the subscription.
    pub subscription: Id<RouterScope>,
}

impl ReceivedMessage for Subscribed {
    const MSG_CODE: u64 = msg_code::SUBSCRIBED;
}

impl View for Subscribed {
    type V = RxModel;

    open spec fn view(&self) -> RxModel {
        RxModel::Subscribed {
            request: self.request@,
            subscription: self.subscription@,
        }
    }
}

impl PartialEq for Subscribed {
    fn eq(&self, other: &Self) -> (same: bool) {
        self.request == other.request && self.subscription == other.subscription
    }
}

impl Eq for Subscribed {

}

impl vstd::std_specs::cmp::PartialEqSpecImpl for Subscribed {
    open spec fn obeys_eq_spec() -> bool {
        true
    }

    open spec fn eq_spec(&self, other: &Self) -> bool {
        self@ == other@
    }
}

/// Sent by brokers to subscribers after they are unsubscribed from a topic.
#[derive(Debug)]
pub struct Unsubscribed {
    /// The ID of the request to unsubscribe.
    pub request: Id<SessionScope>,
}

impl ReceivedMessage for Unsubscribed {
    const MSG_CODE: u64 = msg_code::UNSUBSCRIBED;
}

impl View for Unsubscribed {
    type V = RxModel;

    open spec fn view(&self) -> RxModel {
        RxModel::Unsubscribed {
            request: self.request@,
        }
    }
}

impl PartialEq for Unsubscribed {
    fn eq(&self, other: &Self) -> (same: bool) {
        self.request == other.request
    }
}

impl Eq for Unsubscribed {

}

impl vstd::std_specs::cmp::PartialEqSpecImpl for Unsubscribed {
    open spec fn obeys_eq_spec() -> bool {
        true
    }

    open spec fn eq_spec(&self, other: &Self) -> bool {
        self@ == other@
    }
}

/// Sent by brokers to subscribers to indicate that a message was published to a topic.
#[derive(Debug)]
pub struct Event {
    /// The subscription that the message came by.
    pub subscription: Id<RouterScope>,
    /// The ID of the publication.
    pub publication: Id<GlobalScope>,
    /// Optional details describing the publication.
    pub details: Dict,
    /// A list of positional data.
    pub arguments: Option<List>,
    /// A dictionary of key-value data.
    pub arguments_kw: Option<Dict>,
}

impl ReceivedMessage for Event {
    const MSG_CODE: u64 = msg_code::EVENT;
}

impl View for Event {
    type V = RxModel;

    open spec fn view(&self) -> RxModel {
        RxModel::Event {
            subscription: self.subscription@,
            publication: self.publication@,
            details: crate::transport::dict_model(self.details),
            arguments: crate::transport::arguments_model(self.arguments),
            arguments_kw: crate::transport::arguments_kw_model(self.arguments_kw),
        }
    }
}

impl PartialEq for Event {
    fn eq(&self, other: &Self) -> (same: bool) {
        self.subscription == other.subscription && self.publication == other.publication
            && self.details == other.details && same_arguments(&self.arguments, &other.arguments)
            && same_arguments_kw(&self.arguments_kw, &other.arguments_kw)
    }
}

impl Eq for Event {

}

impl vstd::std_specs::cmp::PartialEqSpecImpl for Event {
    open spec fn obeys_eq_spec() -> bool {
        true
    }

    open spec fn eq_spec(&self, other: &Self) -> bool {
        self@ == other@
    }
}

/// Sent by brokers to publishers after they publish a message to a topic, if they requested
/// acknowledgement.
#[derive(Debug)]
pub struct Published {
    /// The ID of the request to publish.
    pub request: Id<SessionScope>,
    /// The ID of the publication.
    pub publication: Id<GlobalScope>,
}

impl ReceivedMessage for Published {
    const MSG_CODE: u64 = msg_code::PUBLISHED;
}

impl View for Published {
    type V = RxModel;

    open spec fn view(&self) -> RxModel {
        RxModel::Published {
            request: self.request@,
            publication: self.publication@,
        }
    }
}

impl PartialEq for Published {
    fn eq(&self, other: &Self) -> (same: bool) {
        self.request == other.request && self.publication == other.publication
    }
}

impl Eq for Published {

}

impl vstd::std_specs::cmp::PartialEqSpecImpl for Published {
    open spec fn obeys_eq_spec() -> bool {
        true
    }

    open spec fn eq_spec(&self, other: &Self) -> bool {
        self@ == other@
    }
}

/// Sent by dealers to callees after an RPC is registered.
#[derive(Debug)]
pub struct Registered {
    /// The ID of the request to register.
    pub request: Id<SessionScope>,
    /// The ID of the registration.
    pub registration: Id<RouterScope>,
}

impl ReceivedMessage for Registered {
    const MSG_CODE: u64 = msg_code::REGISTERED;
}

impl View for Registered {
    type V = RxModel;

    open spec fn view(&self) -> RxModel {
        RxModel::Registered {
            request: self.request@,
            registration: self.registration@,
        }
    }
}

impl PartialEq for Registered {
    fn eq(&self, other: &Self) -> (same: bool) {
        self.request == other.request && self.registration == other.registration
    }
}

impl Eq for Registered {

}

impl vstd::std_specs::cmp::PartialEqSpecImpl for Registered {
    open spec fn obeys_eq_spec() -> bool {
        true
    }

    open spec fn eq_spec(&self, other: &Self) -> bool {
        self@ == other@
    }
}

/// Sent by dealers to callees after an RPC is unregistered.
#[derive(Debug)]
pub struct Unregistered {
    /// The ID of the request to unregister.
    pub request: Id<SessionScope>,
}

impl ReceivedMessage for Unregistered {
    const MSG_CODE: u64 = msg_code::UNREGISTERED;
}

impl View for Unregistered {
    type V = RxModel;

    open spec fn view(&self) -> RxModel {
        RxModel::Unregistered {
            request: self.request@,
        }
    }
}

impl PartialEq for Unregistered {
    fn eq(&self, other: &Self) -> (same: bool) {
        self.request == other.request
    }
}

impl Eq for Unregistered {

}

impl vstd::std_specs::cmp::PartialEqSpecImpl for Unregistered {
    open spec fn obeys_eq_spec() -> bool {
        true
    }

    open spec fn eq_spec(&self, other: &Self) -> bool {
        self@ == other@
    }
}

/// Sent by dealers to callees when an RPC they have registered is invoked.
#[derive(Debug)]
pub struct Invocation {
    /// The ID of the invocation.
    pub request: Id<SessionScope>,
    /// The registration of the RPC.
    pub registration: Id<RouterScope>,
    /// Optional details describing the invocation.
    pub details: Dict,
    /// The positional arguments.
    pub arguments: Option<List>,
    /// The key-value arguments.
    pub arguments_kw: Option<Dict>,
}

impl ReceivedMessage for Invocation {
    const MSG_CODE: u64 = msg_code::INVOCATION;
}

impl View for Invocation {
    type V = RxModel;

    open spec fn view(&self) -> RxModel {
        RxModel::Invocation {
            request: self.request@,
            registration: self.registration@,
            details: crate::transport::dict_model(self.details),
            arguments: crate::transport::arguments_model(self.arguments),
            arguments_kw: crate::transport::arguments_kw_model(self.arguments_kw),
        }
    }
}

impl PartialEq for Invocation {
    fn eq(&self, other: &Self) -> (same: bool) {
        self.request == other.request && self.registration == other.registration
            && self.details == other.details && same_arguments(&self.arguments, &other.arguments)
            && same_arguments_kw(&self.arguments_kw, &other.arguments_kw)
    }
}

impl Eq for Invocation {

}

impl vstd::std_specs::cmp::PartialEqSpecImpl for Invocation {
    open spec fn obeys_eq_spec() -> bool {
        true
    }

    open spec fn eq_spec(&self, other: &Self) -> bool {
        self@ == other@
    }
}

/// Sent by dealers to callers when an RPC they invoked has completed.
#[derive(Debug)]
pub struct Result {
    /// The ID of the request to call.
    pub request: Id<SessionScope>,
    /// Optional details describing the result.
    pub details: Dict,
    /// The positional returned data.
    pub arguments: Option<List>,
    /// The key-value returned data.
    pub arguments_kw: Option<Dict>,
}

impl ReceivedMessage for Result {
    const MSG_CODE: u64 = msg_code::RESULT;
}

impl View for Result {
    type V = RxModel;

    open spec fn view(&self) -> RxModel {
        RxModel::Result {
            request: self.request@,
            details: crate::transport::dict_model(self.details),
            arguments: crate::transport::arguments_model(self.arguments),
            arguments_kw: crate::transport::arguments_kw_model(self.arguments_kw),
        }
    }
}

impl PartialEq for Result {
    fn eq(&self, other: &Self) -> (same: bool) {
        self.request == other.request && self.details == other.details
            && same_arguments(&self.arguments, &other.arguments)
            && same_arguments_kw(&self.arguments_kw, &other.arguments_kw)
    }
}

impl Eq for Result {

}

impl vstd::std_specs::cmp::PartialEqSpecImpl for Result {
    open spec fn obeys_eq_spec() -> bool {
        true
    }

    open spec fn eq_spec(&self, other: &Self) -> bool {
        self@ == other@
    }
}

/// A message about a session is told of by what it holds, and nothing of it is lost.
pub proof fn lemma_session_messages_are_told(welcome: Welcome, abort: Abort, goodbye: Goodbye)
    ensures
        RxMessage::Welcome(welcome)@ == (RxModel::Welcome {
            session: welcome.session@,
            details: crate::transport::dict_model(welcome.details),
        }),
        RxMessage::Abort(abort)@ == (RxModel::Abort {
            details: crate::transport::dict_model(abort.details),
            reason: abort.reason@,
        }),
        RxMessage::Goodbye(goodbye)@ == (RxModel::Goodbye {
            details: crate::transport::dict_model(goodbye.details),
            reason: goodbye.reason@,
        }),
{
}

/// A reply is told of by what it holds, and nothing of it is lost.
pub proof fn lemma_replies_are_told(
    error: Error,
    subscribed: Subscribed,
    unsubscribed: Unsubscribed,
    published: Published,
    registered: Registered,
    unregistered: Unregistered,
    result: Result,
)
    ensures
        RxMessage::Error(error)@ == (RxModel::Error {
            request_type: error.request_type,
            request: error.request@,
            details: crate::transport::dict_model(error.details),
            error: error.error@,
            arguments: crate::transport::arguments_model(error.arguments),
            arguments_kw: crate::transport::arguments_kw_model(error.arguments_kw),
        }),
        RxMessage::Subscribed(subscribed)@ == (RxModel::Subscribed {
            request: subscribed.request@,
            subscription: subscribed.subscription@,
        }),
        RxMessage::Unsubscribed(unsubscribed)@ == (RxModel::Unsubscribed {
            request: unsubscribed.request@,
        }),
        RxMessage::Published(published)@ == (RxModel::Published {
            request: published.request@,
            publication: published.publication@,
        }),
        RxMessage::Registered(registered)@ == (RxModel::Registered {
            request: registered.request@,
            registration: registered.registration@,
        }),
        RxMessage::Unregistered(unregistered)@ == (RxModel::Unregistered {
            request: unregistered.request@,
        }),
        RxMessage::Result(result)@ == (RxModel::Result {
            request: result.request@,
            details: crate::transport::dict_model(result.details),
            arguments: crate::transport::arguments_model(result.arguments),
            arguments_kw: crate::transport::arguments_kw_model(result.arguments_kw),
        }),
{
}

/// An event and an invocation are told of by what they hold, and nothing of them is lost.
pub proof fn lemma_events_are_told(event: Event, invocation: Invocation)
    ensures
        RxMessage::Event(event)@ == (RxModel::Event {
            subscription: event.subscription@,
            publication: event.publication@,
            details: crate::transport::dict_model(event.details),
            arguments: crate::transport::arguments_model(event.arguments),
            arguments_kw: crate::transport::arguments_kw_model(event.arguments_kw),
        }),
        RxMessage::Invocation(invocation)@ == (RxModel::Invocation {
            request: invocation.request@,
            registration: invocation.registration@,
            details: crate::transport::dict_model(invocation.details),
            arguments: crate::transport::arguments_model(invocation.arguments),
            arguments_kw: crate::transport::arguments_kw_model(invocation.arguments_kw),
        }),
{
}

/// The codes that received messages are known by.
pub proof fn lemma_codes_of_received_messages()
    ensures
        Welcome::MSG_CODE == 2,
        Abort::MSG_CODE == 3,
        Goodbye::MSG_CODE == 6,
        Error::MSG_CODE == 8,
        Published::MSG_CODE == 17,
        Subscribed::MSG_CODE == 33,
        Unsubscribed::MSG_CODE == 35,
        Event::MSG_CODE == 36,
        Result::MSG_CODE == 50,
        Registered::MSG_CODE == 65,
        Unregistered::MSG_CODE == 67,
        Invocation::MSG_CODE == 68,
{
}

} // verus!
