//! A websocket transport that listens by itself, adding the messages that it receives to
//! [`ReceivedValues`].
//!
//! Here messages that make no sense are passed over, and IDs are taken as they come.

use vstd::prelude::*;

use crate::id::{GlobalScope, Id, RouterScope, SessionScope};
use crate::json::{Json, JsonModel};
use crate::proto::msg_code;
use crate::proto::rx::{self, RxModel};
use crate::proto::{TxMessage, List, Dict};
use crate::received::{ReceivedModel, ReceivedValues};
use crate::transport::websocket::message_text;
use crate::transport::websocket::parsers::{self, Message};
use crate::transport::{TransportableValue, TvModel};

verus! {

/// The WELCOME message with these items after its code, if it makes sense.
pub open spec fn heard_welcome(items: Seq<JsonModel>) -> Option<RxModel> {
    if items.len() != 2 {
        None
    } else {
        match (items[0], parsers::helpers::json_tv(items[1])) {
            (JsonModel::Number(Some(session)), Some(TvModel::Dict(details))) => Some(
                RxModel::Welcome { session, details },
            ),
            _ => None,
        }
    }
}

/// The SUBSCRIBED message with these items after its code, if it makes sense.
pub open spec fn heard_subscribed(items: Seq<JsonModel>) -> Option<RxModel> {
    if items.len() != 2 {
        None
    } else {
        match (items[0], items[1]) {
            (JsonModel::Number(Some(request)), JsonModel::Number(Some(subscription))) => Some(
                RxModel::Subscribed { request, subscription },
            ),
            _ => None,
        }
    }
}

/// The UNSUBSCRIBED message with these items after its code, if it makes sense.
pub open spec fn heard_unsubscribed(items: Seq<JsonModel>) -> Option<RxModel> {
    if items.len() != 1 {
        None
    } else {
        match items[0] {
            JsonModel::Number(Some(request)) => Some(RxModel::Unsubscribed { request }),
            _ => None,
        }
    }
}

/// The positional data at `at`, if the message is that long: `None` if it makes no sense.
pub open spec fn heard_arguments(items: Seq<JsonModel>, at: int) -> Option<Option<Seq<TvModel>>> {
    if at < items.len() {
        match parsers::helpers::json_tv(items[at]) {
            Some(TvModel::List(list)) => Some(Some(list)),
            _ => None,
        }
    } else {
        Some(None)
    }
}

/// The key-value data at `at`, if the message is that long: `None` if it makes no sense.
pub open spec fn heard_arguments_kw(items: Seq<JsonModel>, at: int) -> Option<
    Option<Map<Seq<char>, TvModel>>,
> {
    if at < items.len() {
        match parsers::helpers::json_tv(items[at]) {
            Some(TvModel::Dict(dict)) => Some(Some(dict)),
            _ => None,
        }
    } else {
        Some(None)
    }
}

/// The EVENT message with these items after its code, if it makes sense.
pub open spec fn heard_event(items: Seq<JsonModel>) -> Option<RxModel> {
    if items.len() < 3 || items.len() > 5 {
        None
    } else {
        match (
            items[0],
            items[1],
            parsers::helpers::json_tv(items[2]),
            heard_arguments(items, 3),
            heard_arguments_kw(items, 4),
        ) {
            (
                JsonModel::Number(Some(subscription)),
                JsonModel::Number(Some(publication)),
                Some(TvModel::Dict(details)),
                Some(arguments),
                Some(arguments_kw),
            ) => Some(
                RxModel::Event { subscription, publication, details, arguments, arguments_kw },
            ),
            _ => None,
        }
    }
}

/// The ABORT message with these items after its code, if it makes sense.
pub open spec fn heard_abort(items: Seq<JsonModel>) -> Option<RxModel> {
    match parsers::parsed_abort(items) {
        Ok(message) => Some(message),
        Err(_) => None,
    }
}

/// The GOODBYE message with these items after its code, if it makes sense.
pub open spec fn heard_goodbye(items: Seq<JsonModel>) -> Option<RxModel> {
    match parsers::parsed_goodbye(items) {
        Ok(message) => Some(message),
        Err(_) => None,
    }
}

/// The message that a JSON value stands for, if it makes sense and is of a type that is listened
/// for.
pub open spec fn heard(json: JsonModel) -> Option<RxModel> {
    match json {
        JsonModel::Array(all) => if all.len() == 0 {
            None
        } else {
            let items = all.skip(1);
            match all[0] {
                JsonModel::Number(Some(code)) => if code == msg_code::WELCOME {
                    heard_welcome(items)
                } else if code == msg_code::ABORT {
                    heard_abort(items)
                } else if code == msg_code::GOODBYE {
                    heard_goodbye(items)
                } else if code == msg_code::SUBSCRIBED {
                    heard_subscribed(items)
                } else if code == msg_code::UNSUBSCRIBED {
                    heard_unsubscribed(items)
                } else if code == msg_code::EVENT {
                    heard_event(items)
                } else {
                    None
                },
                _ => None,
            }
        },
        _ => None,
    }
}

/// A message that was heard has been added to those of its type, and those who waited for one are
/// notified; nothing else has changed.
pub open spec fn added(
    before: ReceivedModel,
    after: ReceivedModel,
    message: Option<RxModel>,
    woken: Seq<u64>,
) -> bool {
    match message {
        None => after == before && woken.len() == 0,
        Some(RxModel::Welcome { .. }) => exists|value: rx::Welcome|
            #![trigger before.welcome.inserted(value)]
            Some(value@) == message && woken == before.welcome.waiting && after == (ReceivedModel {
                welcome: before.welcome.inserted(value),
                ..before
            }),
        Some(RxModel::Abort { .. }) => exists|value: rx::Abort|
            #![trigger before.abort.inserted(value)]
            Some(value@) == message && woken == before.abort.waiting && after == (ReceivedModel {
                abort: before.abort.inserted(value),
                ..before
            }),
        Some(RxModel::Goodbye { .. }) => exists|value: rx::Goodbye|
            #![trigger before.goodbye.inserted(value)]
            Some(value@) == message && woken == before.goodbye.waiting && after == (ReceivedModel {
                goodbye: before.goodbye.inserted(value),
                ..before
            }),
        Some(RxModel::Subscribed { .. }) => exists|value: rx::Subscribed|
            #![trigger before.subscribed.inserted(value)]
            Some(value@) == message && woken == before.subscribed.waiting && after == (
            ReceivedModel { subscribed: before.subscribed.inserted(value), ..before }),
        Some(RxModel::Unsubscribed { .. }) => exists|value: rx::Unsubscribed|
            #![trigger before.unsubscribed.inserted(value)]
            Some(value@) == message && woken == before.unsubscribed.waiting && after == (
            ReceivedModel { unsubscribed: before.unsubscribed.inserted(value), ..before }),
        Some(RxModel::Event { .. }) => exists|value: rx::Event|
            #![trigger before.event.inserted(value)]
            Some(value@) == message && woken == before.event.waiting && after == (ReceivedModel {
                event: before.event.inserted(value),
                ..before
            }),
        Some(_) => false,
    }
}

fn heard_dict(value: &Json) -> (dict: Option<Dict>)
    ensures
        match dict {
            Some(dict) => parsers::helpers::json_tv(value@) == Some(
                TvModel::Dict(crate::transport::dict_model(dict)),
            ),
            None => !(parsers::helpers::json_tv(value@) matches Some(TvModel::Dict(_))),
        },
{
    match parsers::helpers::json_to_tv(value) {
        Some(TransportableValue::Dict(dict)) => Some(dict),
        _ => None,
    }
}

fn heard_list(value: &Json) -> (list: Option<List>)
    ensures
        match list {
            Some(list) => parsers::helpers::json_tv(value@) == Some(
                TvModel::List(crate::transport::list_model(list@)),
            ),
            None => !(parsers::helpers::json_tv(value@) matches Some(TvModel::List(_))),
        },
{
    match parsers::helpers::json_to_tv(value) {
        Some(TransportableValue::List(list)) => Some(list),
        _ => None,
    }
}

/// Adds received messages to [`ReceivedValues`].
#[derive(Debug)]
pub struct WebsocketTransportListener {
    /// The messages that have been received.
    pub received_values: ReceivedValues,
}

impl WebsocketTransportListener {
    /// Adds a message, if it makes sense. The tasks to be notified are returned.
    pub fn handle_message(&mut self, message: String) -> (woken: Vec<u64>)
        ensures
            added(
                old(self).received_values@,
                final(self).received_values@,
                match crate::json::parsed_json(message@) {
                    Ok(json) => heard(json),
                    Err(_) => None,
                },
                woken@,
            ),
    {
        match Json::parse(message.as_str()) {
            Ok(json) => self.handle_json(&json),
            Err(_) => Vec::new(),
        }
    }

    /// Adds the message that a JSON value stands for, if it makes sense. The tasks to be notified
    /// are returned.
    pub fn handle_json(&mut self, json: &Json) -> (woken: Vec<u64>)
        ensures
            added(
                old(self).received_values@,
                final(self).received_values@,
                heard(json@),
                woken@,
            ),
    {
        let values = match json {
            Json::Array(values) => values,
            _ => return Vec::new(),
        };
        if values.len() == 0 {
            return Vec::new();
        }
        let code: u64 = match values[0].as_u64() {
            Some(code) => code,
            None => return Vec::new(),
        };
        let msg = vstd::slice::slice_subrange(values.as_slice(), 1, values.len());
        assert(crate::json::array_model(msg@) =~= crate::json::array_model(values@).skip(1));
        if code == msg_code::WELCOME {
            self.handle_welcome(msg)
        } else if code == msg_code::ABORT {
            self.handle_abort(msg)
        } else if code == msg_code::GOODBYE {
            self.handle_goodbye(msg)
        } else if code == msg_code::SUBSCRIBED {
            self.handle_subscribed(msg)
        } else if code == msg_code::UNSUBSCRIBED {
            self.handle_unsubscribed(msg)
        } else if code == msg_code::EVENT {
            self.handle_event(msg)
        } else {
            Vec::new()
        }
    }

    /// Adds a WELCOME message, if it makes sense. The tasks to be notified are returned.
    pub fn handle_welcome(&mut self, msg: &[Json]) -> (woken: Vec<u64>)
        ensures
            added(
                old(self).received_values@,
                final(self).received_values@,
                heard_welcome(crate::json::array_model(msg@)),
                woken@,
            ),
    {
        if msg.len() != 2 {
            return Vec::new();
        }
        let session: Id<GlobalScope> = match msg[0].as_u64() {
            Some(id) => Id::from_raw_value(id),
            None => return Vec::new(),
        };
        let details = match heard_dict(&msg[1]) {
            Some(details) => details,
            None => return Vec::new(),
        };
        let message = rx::Welcome { session, details };
        let woken = self.received_values.welcome.insert(message);
        assert(self.received_values@ == (ReceivedModel {
            welcome: old(self).received_values@.welcome.inserted(message),
            ..old(self).received_values@
        }));
        woken
    }

    /// Adds an ABORT message, if it makes sense. The tasks to be notified are returned.
    pub fn handle_abort(&mut self, msg: &[Json]) -> (woken: Vec<u64>)
        ensures
            added(
                old(self).received_values@,
                final(self).received_values@,
                heard_abort(crate::json::array_model(msg@)),
                woken@,
            ),
    {
        match parsers::parse_abort(msg) {
            Ok(message) => {
                let woken = self.received_values.abort.insert(message);
                assert(self.received_values@ == (ReceivedModel {
                    abort: old(self).received_values@.abort.inserted(message),
                    ..old(self).received_values@
                }));
                woken
            },
            Err(_) => Vec::new(),
        }
    }

    /// Adds a GOODBYE message, if it makes sense. The tasks to be notified are returned.
    pub fn handle_goodbye(&mut self, msg: &[Json]) -> (woken: Vec<u64>)
        ensures
            added(
                old(self).received_values@,
                final(self).received_values@,
                heard_goodbye(crate::json::array_model(msg@)),
                woken@,
            ),
    {
        match parsers::parse_goodbye(msg) {
            Ok(message) => {
                let woken = self.received_values.goodbye.insert(message);
                assert(self.received_values@ == (ReceivedModel {
                    goodbye: old(self).received_values@.goodbye.inserted(message),
                    ..old(self).received_values@
                }));
                woken
            },
            Err(_) => Vec::new(),
        }
    }

    /// Adds a SUBSCRIBED message, if it makes sense. The tasks to be notified are returned.
    pub fn handle_subscribed(&mut self, msg: &[Json]) -> (woken: Vec<u64>)
        ensures
            added(
                old(self).received_values@,
                final(self).received_values@,
                heard_subscribed(crate::json::array_model(msg@)),
                woken@,
            ),
    {
        if msg.len() != 2 {
            return Vec::new();
        }
        let request: Id<SessionScope> = match msg[0].as_u64() {
            Some(id) => Id::from_raw_value(id),
            None => return Vec::new(),
        };
        let subscription: Id<RouterScope> = match msg[1].as_u64() {
            Some(id) => Id::from_raw_value(id),
            None => return Vec::new(),
        };
        let message = rx::Subscribed { request, subscription };
        let woken = self.received_values.subscribed.insert(message);
        assert(self.received_values@ == (ReceivedModel {
            subscribed: old(self).received_values@.subscribed.inserted(message),
            ..old(self).received_values@
        }));
        woken
    }

    /// Adds an UNSUBSCRIBED message, if it makes sense. The tasks to be notified are returned.
    pub fn handle_unsubscribed(&mut self, msg: &[Json]) -> (woken: Vec<u64>)
        ensures
            added(
                old(self).received_values@,
                final(self).received_values@,
                heard_unsubscribed(crate::json::array_model(msg@)),
                woken@,
            ),
    {
        if msg.len() != 1 {
            return Vec::new();
        }
        let request: Id<SessionScope> = match msg[0].as_u64() {
            Some(id) => Id::from_raw_value(id),
            None => return Vec::new(),
        };
        let message = rx::Unsubscribed { request };
        let woken = self.received_values.unsubscribed.insert(message);
        assert(self.received_values@ == (ReceivedModel {
            unsubscribed: old(self).received_values@.unsubscribed.inserted(message),
            ..old(self).received_values@
        }));
        woken
    }

    /// Adds an EVENT message, if it makes sense. The tasks to be notified are returned.
    pub fn handle_event(&mut self, msg: &[Json]) -> (woken: Vec<u64>)
        ensures
            added(
                old(self).received_values@,
                final(self).received_values@,
                heard_event(crate::json::array_model(msg@)),
                woken@,
            ),
    {
        if msg.len() < 3 || msg.len() > 5 {
            return Vec::new();
        }
        let subscription: Id<RouterScope> = match msg[0].as_u64() {
            Some(id) => Id::from_raw_value(id),
            None => return Vec::new(),
        };
        let publication: Id<GlobalScope> = match msg[1].as_u64() {
            Some(id) => Id::from_raw_value(id),
            None => return Vec::new(),
        };
        let details = match heard_dict(&msg[2]) {
            Some(details) => details,
            None => return Vec::new(),
        };
        let arguments = if msg.len() > 3 {
            match heard_list(&msg[3]) {
                Some(list) => Some(list),
                None => return Vec::new(),
            }
        } else {
            None
        };
        let arguments_kw = if msg.len() > 4 {
            match heard_dict(&msg[4]) {
                Some(dict) => Some(dict),
                None => return Vec::new(),
            }
        } else {
            None
        };
        let message = rx::Event { subscription, publication, details, arguments, arguments_kw };
        let woken = self.received_values.event.insert(message);
        assert(self.received_values@ == (ReceivedModel {
            event: old(self).received_values@.event.inserted(message),
            ..old(self).received_values@
        }));
        woken
    }
}

/// What polling the websocket came to.
pub enum ListenerEvent {
    /// The stream has been dropped.
    StreamGone,
    /// Nothing has arrived yet.
    Pending,
    /// The websocket has ended.
    Ended,
    /// The websocket has failed. Holds the text of the error.
    Failed(String),
    /// A message has arrived.
    Received(Message),
}

/// What the listener does next.
#[derive(Debug, Clone, Copy, Eq, PartialEq, Structural)]
pub enum ListenerStep {
    /// Polls the websocket again.
    PollAgain,
    /// Waits until the websocket has something.
    Pending,
    /// Ends.
    Finished,
    /// Drops the stream and ends.
    FailedDropStream,
}

/// The text of a text message, or `None` for other messages.
pub open spec fn text_of(message: Message) -> Option<Seq<char>> {
    match message {
        Message::Text(text) => Some(text@),
        _ => None,
    }
}

impl WebsocketTransportListener {
    /// One turn of the listener. `stopped` says whether the listener has been told to stop, or can
    /// no longer be told so; then nothing else counts. The tasks to be notified are returned too.
    ///
    /// An error of the transport is added to the errors: the client will not close the transport.
    pub fn poll_step(&mut self, stopped: bool, event: ListenerEvent) -> (outcome: (
        ListenerStep,
        Vec<u64>,
    ))
        ensures
            ({
                let before = old(self).received_values@;
                let after = final(self).received_values@;
                if stopped {
                    outcome.0 is Finished && after == before && outcome.1@.len() == 0
                } else {
                    match event {
                        ListenerEvent::StreamGone => outcome.0 is Finished && after == before
                            && outcome.1@.len() == 0,
                        ListenerEvent::Pending => outcome.0 is Pending && after == before
                            && outcome.1@.len() == 0,
                        ListenerEvent::Ended => outcome.0 is Finished && after == before
                            && outcome.1@.len() == 0,
                        ListenerEvent::Failed(error) => outcome.0 is FailedDropStream && after == (
                        ReceivedModel {
                            transport_errors: before.transport_errors.inserted(error),
                            ..before
                        }) && outcome.1@ == before.transport_errors.waiting,
                        ListenerEvent::Received(message) => outcome.0 is PollAgain && added(
                            before,
                            after,
                            match text_of(message) {
                                Some(text) => match crate::json::parsed_json(text) {
                                    Ok(json) => heard(json),
                                    Err(_) => None,
                                },
                                None => None,
                            },
                            outcome.1@,
                        ),
                    }
                }
            }),
    {
        if stopped {
            return (ListenerStep::Finished, Vec::new());
        }
        match event {
            ListenerEvent::StreamGone => (ListenerStep::Finished, Vec::new()),
            ListenerEvent::Pending => (ListenerStep::Pending, Vec::new()),
            ListenerEvent::Ended => (ListenerStep::Finished, Vec::new()),
            ListenerEvent::Failed(error) => {
                let woken = self.received_values.transport_errors.insert(error);
                (ListenerStep::FailedDropStream, woken)
            },
            ListenerEvent::Received(Message::Text(text)) => {
                let woken = self.handle_message(text);
                (ListenerStep::PollAgain, woken)
            },
            ListenerEvent::Received(_) => (ListenerStep::PollAgain, Vec::new()),
        }
    }
}

/// Why a message could not be handed to the websocket.
#[derive(Debug)]
pub enum SendError {
    /// The transport has been closed.
    TransportStreamClosed,
    /// The message could not be written.
    Json(String),
}

/// What is to be done when a transport is closed.
#[derive(Debug)]
pub struct Closing {
    /// The signal to give to the listener, if it is running.
    pub stop_listener: Option<u64>,
    /// Whether there is a websocket to close.
    pub close_client: bool,
}

/// A websocket transport that listens by itself: what of it is still there.
#[derive(Debug)]
pub struct WebsocketTransport {
    /// Whether the sending half of the websocket is there.
    pub client: bool,
    /// Whether the receiving half of the websocket is there.
    pub stream: bool,
    /// The signal by which the listener is stopped, while it is running.
    pub listener_stop_sender: Option<u64>,
    /// Where messages are added. Only present until listening has begun.
    pub received_values: Option<ReceivedValues>,
}

impl WebsocketTransport {
    /// A transport that has just been connected.
    pub fn connected(received_values: ReceivedValues) -> (transport: Self)
        ensures
            transport == (WebsocketTransport {
                client: true,
                stream: true,
                listener_stop_sender: None,
                received_values: Some(received_values),
            }),
    {
        WebsocketTransport {
            client: true,
            stream: true,
            listener_stop_sender: None,
            received_values: Some(received_values),
        }
    }

    /// The text that is to be handed to the websocket for a message.
    pub fn start_send(&self, item: &TxMessage) -> (result: Result<String, SendError>)
        ensures
            if self.client {
                &&& result matches Ok(text)
                &&& text@ == crate::json::written_json(crate::proto::tx_json(item@))
            } else {
                result matches Err(SendError::TransportStreamClosed)
            },
    {
        if !self.client {
            return Err(SendError::TransportStreamClosed);
        }
        match message_text(item) {
            Ok(text) => Ok(text),
            Err(error) => Err(SendError::Json(error)),
        }
    }

    /// Checks that there is a websocket to flush.
    pub fn poll_complete(&self) -> (result: Result<(), SendError>)
        ensures
            if self.client {
                result is Ok
            } else {
                result matches Err(SendError::TransportStreamClosed)
            },
    {
        if self.client {
            Ok(())
        } else {
            Err(SendError::TransportStreamClosed)
        }
    }

    /// Begins to listen, with a signal by which the listener is stopped. Only the first call does.
    pub fn listen(&mut self, stop_sender: u64) -> (listener: Option<WebsocketTransportListener>)
        ensures
            match old(self).received_values {
                Some(received_values) => {
                    &&& listener == Some(WebsocketTransportListener { received_values })
                    &&& *final(self) == (WebsocketTransport {
                        listener_stop_sender: Some(stop_sender),
                        received_values: None,
                        ..*old(self)
                    })
                },
                None => listener is None && *final(self) == *old(self),
            },
    {
        match self.received_values.take() {
            Some(received_values) => {
                self.listener_stop_sender = Some(stop_sender);
                Some(WebsocketTransportListener { received_values })
            },
            None => None,
        }
    }

    /// Closes the transport. Dropping the stream will end the listener, which is also told to stop
    /// if it is running.
    pub fn close(&mut self) -> (closing: Closing)
        ensures
            closing == (Closing {
                stop_listener: old(self).listener_stop_sender,
                close_client: old(self).client,
            }),
            *final(self) == (WebsocketTransport {
                client: false,
                stream: false,
                listener_stop_sender: None,
                ..*old(self)
            }),
    {
        let closing = Closing {
            stop_listener: self.listener_stop_sender,
            close_client: self.client,
        };
        self.client = false;
        self.stream = false;
        self.listener_stop_sender = None;
        closing
    }

    /// The signal to give to the listener when the transport is dropped, if it is still running.
    pub fn dropped(&mut self) -> (stop_listener: Option<u64>)
        ensures
            stop_listener == old(self).listener_stop_sender,
            *final(self) == (WebsocketTransport { listener_stop_sender: None, ..*old(self) }),
    {
        let stop_listener = self.listener_stop_sender;
        self.listener_stop_sender = None;
        stop_listener
    }
}

/// Every message of the types that are listened for that can be parsed is heard, and as the same
/// message.
pub proof fn lemma_heard_is_parsed(json: JsonModel)
    ensures
        parsers::parsed_message(json) matches Ok(Some(message)) ==> !(message is Error) ==> heard(
            json,
        ) == Some(message),
{
}

} // verus!
