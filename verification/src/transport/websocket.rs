//! A websocket-based transport.

use vstd::prelude::*;

use crate::json::JsonModel;
use crate::proto::rx::{RxMessage, RxModel};
use crate::proto::TxMessage;
use crate::transport::websocket::parsers::{Message, MessageParseError};
use crate::transport::TransportError;

pub mod listener;
pub mod parsers;
pub mod reading;
pub mod round_trip;
pub mod wire;

verus! {

/// The header by which a websocket client tells which subprotocol it speaks.
pub const PROTOCOL_HEADER: &'static str = "Sec-Websocket-Protocol";

/// WAMP over JSON.
pub const PROTOCOL: &'static str = "wamp.2.json";

/// The text of the websocket message that carries `item`. It is read back as the JSON form of the
/// message, unless the message's values are nested too deep.
pub fn message_text(item: &TxMessage) -> (result: Result<String, String>)
    ensures
        result is Ok,
        result->Ok_0@ == crate::json::written_json(crate::proto::tx_json(item@)),
        crate::json::nested_within(
            crate::proto::tx_json(item@),
            crate::json::MAX_NESTING as nat,
        ) ==> crate::json::parsed_json(result->Ok_0@) == Ok::<JsonModel, Seq<char>>(
            crate::proto::tx_json(item@),
        ),
{
    proof {
        crate::transport::websocket::round_trip::lemma_tx_json_writable(item@);
    }
    item.to_json().write()
}

/// What polling the websocket came to.
pub enum StreamEvent {
    /// Nothing has arrived yet.
    Pending,
    /// The websocket has ended.
    Ended,
    /// The websocket has failed. Holds the text of the error.
    Failed(String),
    /// A message has arrived.
    Received(Message),
}

/// What the stream of messages does next.
pub enum StreamStep {
    /// Waits until the websocket has something.
    Pending,
    /// Ends.
    Ended,
    /// Gives this out.
    Item(Result<RxMessage, TransportError>),
    /// Polls the websocket again.
    PollAgain,
}

/// What is to be given out after a message has been parsed.
pub open spec fn step_after_parsing(
    parsed: Result<Option<RxModel>, MessageParseError>,
    step: StreamStep,
) -> bool {
    match parsed {
        Ok(Some(expected)) => step matches StreamStep::Item(Ok(message)) && message@ == expected,
        Ok(None) => step is PollAgain,
        Err(error) => step matches StreamStep::Item(Err(TransportError::ParseError(text))) && text@
            == crate::transport::websocket::parsers::parse_error_text(error),
    }
}

/// Gives out what came of a parsed websocket message; skipped messages are passed over.
pub fn step_for_parsed(parsed: Result<Option<RxMessage>, MessageParseError>) -> (step: StreamStep)
    ensures
        match parsed {
            Ok(Some(message)) => step == StreamStep::Item(Ok(message)),
            Ok(None) => step is PollAgain,
            Err(error) => step matches StreamStep::Item(Err(TransportError::ParseError(text)))
                && text@ == crate::transport::websocket::parsers::parse_error_text(error),
        },
{
    match parsed {
        Ok(Some(message)) => StreamStep::Item(Ok(message)),
        Ok(None) => StreamStep::PollAgain,
        Err(error) => StreamStep::Item(Err(TransportError::ParseError(error.text()))),
    }
}

/// What the stream of messages does after polling the websocket.
pub fn step_for_event(event: StreamEvent) -> (step: StreamStep)
    ensures
        match event {
            StreamEvent::Pending => step is Pending,
            StreamEvent::Ended => step is Ended,
            StreamEvent::Failed(error) => step == StreamStep::Item(
                Err(TransportError::NetworkError(error)),
            ),
            StreamEvent::Received(Message::Text(text)) => match crate::json::parsed_json(text@) {
                Ok(json) => step_after_parsing(
                    crate::transport::websocket::parsers::parsed_message(json),
                    step,
                ),
                Err(reason) => step matches StreamStep::Item(
                    Err(TransportError::ParseError(shown)),
                ) && shown@ == "received bad JSON: "@ + reason,
            },
            StreamEvent::Received(_) => step is PollAgain,
        },
{
    match event {
        StreamEvent::Pending => StreamStep::Pending,
        StreamEvent::Ended => StreamStep::Ended,
        StreamEvent::Failed(error) => StreamStep::Item(Err(TransportError::NetworkError(error))),
        StreamEvent::Received(message) => step_for_parsed(parsers::parse_message(message)),
    }
}

/// A message that was made sense of is given out as it is, one that is skipped is passed over, and
/// what makes no sense is given out as an error of parsing that shows why.
pub proof fn lemma_parsed_is_given_out(
    parsed: Result<Option<RxModel>, MessageParseError>,
    step: StreamStep,
)
    requires
        step_after_parsing(parsed, step),
    ensures
        match parsed {
            Ok(Some(expected)) => step matches StreamStep::Item(Ok(message)) && message@
                == expected,
            Ok(None) => step is PollAgain,
            Err(MessageParseError::BadJson(reason)) => step matches StreamStep::Item(
                Err(TransportError::ParseError(text)),
            ) && text@ == "received bad JSON: "@ + reason@,
            Err(_) => step matches StreamStep::Item(Err(TransportError::ParseError(_))),
        },
{
}

/// Only text messages have a text, which is the whole of it.
pub proof fn lemma_text_messages_are_heard(message: Message)
    ensures
        match message {
            Message::Text(text) => listener::text_of(message) == Some(text@),
            _ => listener::text_of(message) is None,
        },
{
}

/// What is shown of what makes no sense tells which part of the message it was.
pub proof fn lemma_parse_error_is_shown(error: MessageParseError)
    ensures
        ({
            let shown = parsers::parse_error_text(error);
            match error {
                MessageParseError::BadJson(reason) => shown == "received bad JSON: "@ + reason@,
                MessageParseError::NonArrayJson => shown == "received non-array JSON"@,
                MessageParseError::EmptyArray => shown == "received empty array"@,
                MessageParseError::NonIntegerMessageCode => shown
                    == "received non-integer message code"@,
                MessageParseError::BadMessageLength => shown
                    == "received message with bad length"@,
                MessageParseError::IdNotInteger => shown == "received non-integer ID"@,
                MessageParseError::IdOutOfRange => shown == "recieved out-of-range ID"@,
                MessageParseError::DetailsNotDictionary => shown
                    == "received non-dictionary details"@,
                MessageParseError::BadUri => shown == "received invalid URI"@,
                MessageParseError::UriNotString => shown == "received non-string URI"@,
                MessageParseError::ErrorRequestTypeNotInt => shown
                    == "received non-integer request type in ERROR message"@,
                MessageParseError::ArgumentsNotList => shown == "received non-list arguments"@,
                MessageParseError::ArguementsKwNotDictionary => shown
                    == "received non-dictionary keyword arguments"@,
            }
        }),
{
}

} // verus!
