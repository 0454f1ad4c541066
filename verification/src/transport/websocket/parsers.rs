//! Parsing of received messages.

use vstd::prelude::*;
use vstd::string::StringExecFns;

use crate::id::{GlobalScope, Id, RouterScope, SessionScope};
use crate::json::{Json, JsonModel};
use crate::proto::msg_code;
use crate::proto::rx::{self, RxMessage, RxModel};
use crate::transport::TvModel;

pub mod helpers;

verus! {

/// Why a received message could not be made sense of.
#[derive(Debug)]
pub enum MessageParseError {
    /// Received bad JSON. Holds what is wrong with it.
    BadJson(String),
    /// Received non-array JSON.
    NonArrayJson,
    /// Received empty array.
    EmptyArray,
    /// Received non-integer message code.
    NonIntegerMessageCode,
    /// Received message with bad length.
    BadMessageLength,
    /// Received non-integer ID.
    IdNotInteger,
    /// Received out-of-range ID.
    IdOutOfRange,
    /// Received non-dictionary details.
    DetailsNotDictionary,
    /// Received invalid URI.
    BadUri,
    /// Received non-string URI.
    UriNotString,
    /// Received non-integer request type in ERROR message.
    ErrorRequestTypeNotInt,
    /// Received non-list arguments.
    ArgumentsNotList,
    /// Received non-dictionary keyword arguments.
    ArguementsKwNotDictionary,
}

/// What is shown of a parse error.
pub open spec fn parse_error_text(error: MessageParseError) -> Seq<char> {
    match error {
        MessageParseError::BadJson(reason) => "received bad JSON: "@ + reason@,
        MessageParseError::NonArrayJson => "received non-array JSON"@,
        MessageParseError::EmptyArray => "received empty array"@,
        MessageParseError::NonIntegerMessageCode => "received non-integer message code"@,
        MessageParseError::BadMessageLength => "received message with bad length"@,
        MessageParseError::IdNotInteger => "received non-integer ID"@,
        MessageParseError::IdOutOfRange => "recieved out-of-range ID"@,
        MessageParseError::DetailsNotDictionary => "received non-dictionary details"@,
        MessageParseError::BadUri => "received invalid URI"@,
        MessageParseError::UriNotString => "received non-string URI"@,
        MessageParseError::ErrorRequestTypeNotInt => {
            "received non-integer request type in ERROR message"@
        },
        MessageParseError::ArgumentsNotList => "received non-list arguments"@,
        MessageParseError::ArguementsKwNotDictionary => {
            "received non-dictionary keyword arguments"@
        },
    }
}

impl MessageParseError {
    /// What is shown of this error.
    pub fn text(&self) -> (text: String)
        ensures
            text@ == parse_error_text(*self),
    {
        match self {
            MessageParseError::BadJson(reason) => {
                "received bad JSON: ".to_owned().concat(reason.as_str())
            },
            MessageParseError::NonArrayJson => "received non-array JSON".to_owned(),
            MessageParseError::EmptyArray => "received empty array".to_owned(),
            MessageParseError::NonIntegerMessageCode => {
                "received non-integer message code".to_owned()
            },
            MessageParseError::BadMessageLength => "received message with bad length".to_owned(),
            MessageParseError::IdNotInteger => "received non-integer ID".to_owned(),
            MessageParseError::IdOutOfRange => "recieved out-of-range ID".to_owned(),
            MessageParseError::DetailsNotDictionary => "received non-dictionary details".to_owned(),
            MessageParseError::BadUri => "received invalid URI".to_owned(),
            MessageParseError::UriNotString => "received non-string URI".to_owned(),
            MessageParseError::ErrorRequestTypeNotInt => {
                "received non-integer request type in ERROR message".to_owned()
            },
            MessageParseError::ArgumentsNotList => "received non-list arguments".to_owned(),
            MessageParseError::ArguementsKwNotDictionary => {
                "received non-dictionary keyword arguments".to_owned()
            },
        }
    }
}

/// A websocket message.
#[derive(Debug)]
pub enum Message {
    /// A text message.
    Text(String),
    /// A binary message.
    Binary(Vec<u8>),
    /// A ping message with the given payload.
    Ping(Vec<u8>),
    /// A pong message with the given payload.
    Pong(Vec<u8>),
    /// A close message.
    Close,
}

/// The positional data at `at`, if the message is that long.
pub open spec fn parsed_arguments_at(items: Seq<JsonModel>, at: int) -> Result<
    Option<Seq<TvModel>>,
    MessageParseError,
> {
    if at < items.len() {
        match helpers::parsed_arguments(items[at]) {
            Ok(arguments) => Ok(Some(arguments)),
            Err(error) => Err(error),
        }
    } else {
        Ok(None)
    }
}

/// The key-value data at `at`, if the message is that long.
pub open spec fn parsed_arguments_kw_at(items: Seq<JsonModel>, at: int) -> Result<
    Option<Map<Seq<char>, TvModel>>,
    MessageParseError,
> {
    if at < items.len() {
        match helpers::parsed_arguments_kw(items[at]) {
            Ok(arguments_kw) => Ok(Some(arguments_kw)),
            Err(error) => Err(error),
        }
    } else {
        Ok(None)
    }
}

/// The WELCOME message with these items after its code. The first part that is not as it should be
/// decides on the error.
pub open spec fn parsed_welcome(items: Seq<JsonModel>) -> Result<RxModel, MessageParseError> {
    if items.len() != 2 {
        Err(MessageParseError::BadMessageLength)
    } else {
        match (helpers::parsed_id(items[0]), helpers::parsed_details(items[1])) {
            (Err(error), _) => Err(error),
            (_, Err(error)) => Err(error),
            (Ok(session), Ok(details)) => Ok(RxModel::Welcome { session, details }),
        }
    }
}

/// The ABORT message with these items after its code.
pub open spec fn parsed_abort(items: Seq<JsonModel>) -> Result<RxModel, MessageParseError> {
    if items.len() != 2 {
        Err(MessageParseError::BadMessageLength)
    } else {
        match (helpers::parsed_details(items[0]), helpers::parsed_uri(items[1])) {
            (Err(error), _) => Err(error),
            (_, Err(error)) => Err(error),
            (Ok(details), Ok(reason)) => Ok(RxModel::Abort { details, reason }),
        }
    }
}

/// The GOODBYE message with these items after its code.
pub open spec fn parsed_goodbye(items: Seq<JsonModel>) -> Result<RxModel, MessageParseError> {
    if items.len() != 2 {
        Err(MessageParseError::BadMessageLength)
    } else {
        match (helpers::parsed_details(items[0]), helpers::parsed_uri(items[1])) {
            (Err(error), _) => Err(error),
            (_, Err(error)) => Err(error),
            (Ok(details), Ok(reason)) => Ok(RxModel::Goodbye { details, reason }),
        }
    }
}

/// The request type of an ERROR message.
pub open spec fn parsed_request_type(item: JsonModel) -> Result<u64, MessageParseError> {
    match item {
        JsonModel::Number(Some(request_type)) => Ok(request_type),
        _ => Err(MessageParseError::ErrorRequestTypeNotInt),
    }
}

/// The ERROR message with these items after its code.
pub open spec fn parsed_error(items: Seq<JsonModel>) -> Result<RxModel, MessageParseError> {
    if items.len() < 4 || items.len() > 6 {
        Err(MessageParseError::BadMessageLength)
    } else {
        match (
            parsed_request_type(items[0]),
            helpers::parsed_id(items[1]),
            helpers::parsed_details(items[2]),
            helpers::parsed_uri(items[3]),
            parsed_arguments_at(items, 4),
            parsed_arguments_kw_at(items, 5),
        ) {
            (Err(error), _, _, _, _, _) => Err(error),
            (_, Err(error), _, _, _, _) => Err(error),
            (_, _, Err(error), _, _, _) => Err(error),
            (_, _, _, Err(error), _, _) => Err(error),
            (_, _, _, _, Err(error), _) => Err(error),
            (_, _, _, _, _, Err(error)) => Err(error),
            (
                Ok(request_type),
                Ok(request),
                Ok(details),
                Ok(error),
                Ok(arguments),
                Ok(arguments_kw),
            ) => Ok(
                RxModel::Error { request_type, request, details, error, arguments, arguments_kw },
            ),
        }
    }
}

/// The SUBSCRIBED message with these items after its code.
pub open spec fn parsed_subscribed(items: Seq<JsonModel>) -> Result<RxModel, MessageParseError> {
    if items.len() != 2 {
        Err(MessageParseError::BadMessageLength)
    } else {
        match (helpers::parsed_id(items[0]), helpers::parsed_id(items[1])) {
            (Err(error), _) => Err(error),
            (_, Err(error)) => Err(error),
            (Ok(request), Ok(subscription)) => Ok(RxModel::Subscribed { request, subscription }),
        }
    }
}

/// The UNSUBSCRIBED message with these items after its code.
pub open spec fn parsed_unsubscribed(items: Seq<JsonModel>) -> Result<
    RxModel,
    MessageParseError,
> {
    if items.len() != 1 {
        Err(MessageParseError::BadMessageLength)
    } else {
        match helpers::parsed_id(items[0]) {
            Err(error) => Err(error),
            Ok(request) => Ok(RxModel::Unsubscribed { request }),
        }
    }
}

/// The EVENT message with these items after its code.
pub open spec fn parsed_event(items: Seq<JsonModel>) -> Result<RxModel, MessageParseError> {
    if items.len() < 3 || items.len() > 5 {
        Err(MessageParseError::BadMessageLength)
    } else {
        match (
            helpers::parsed_id(items[0]),
            helpers::parsed_id(items[1]),
            helpers::parsed_details(items[2]),
            parsed_arguments_at(items, 3),
            parsed_arguments_kw_at(items, 4),
        ) {
            (Err(error), _, _, _, _) => Err(error),
            (_, Err(error), _, _, _) => Err(error),
            (_, _, Err(error), _, _) => Err(error),
            (_, _, _, Err(error), _) => Err(error),
            (_, _, _, _, Err(error)) => Err(error),
            (Ok(subscription), Ok(publication), Ok(details), Ok(arguments), Ok(arguments_kw)) => Ok(
                RxModel::Event { subscription, publication, details, arguments, arguments_kw },
            ),
        }
    }
}

/// The message that a JSON value stands for. `Ok(None)` is for one that should be skipped because
/// its code is unknown.
pub open spec fn parsed_message(json: JsonModel) -> Result<Option<RxModel>, MessageParseError> {
    match json {
        JsonModel::Array(all) => if all.len() == 0 {
            Err(MessageParseError::EmptyArray)
        } else {
            let items = all.skip(1);
            match all[0] {
                JsonModel::Number(Some(code)) => if code == msg_code::WELCOME {
                    known(parsed_welcome(items))
                } else if code == msg_code::ABORT {
                    known(parsed_abort(items))
                } else if code == msg_code::ERROR {
                    known(parsed_error(items))
                } else if code == msg_code::GOODBYE {
                    known(parsed_goodbye(items))
                } else if code == msg_code::SUBSCRIBED {
                    known(parsed_subscribed(items))
                } else if code == msg_code::UNSUBSCRIBED {
                    known(parsed_unsubscribed(items))
                } else if code == msg_code::EVENT {
                    known(parsed_event(items))
                } else {
                    Ok(None)
                },
                _ => Err(MessageParseError::NonIntegerMessageCode),
            }
        },
        _ => Err(MessageParseError::NonArrayJson),
    }
}

/// The outcome for a message whose code is known.
pub open spec fn known(parsed: Result<RxModel, MessageParseError>) -> Result<
    Option<RxModel>,
    MessageParseError,
> {
    match parsed {
        Ok(message) => Ok(Some(message)),
        Err(error) => Err(error),
    }
}

/// A parsed message is the one that is expected, or the error is.
pub open spec fn parsed_as<M: View<V = RxModel>>(
    result: Result<M, MessageParseError>,
    expected: Result<RxModel, MessageParseError>,
) -> bool {
    match result {
        Ok(message) => expected == Ok::<RxModel, MessageParseError>(message@),
        Err(error) => expected == Err::<RxModel, MessageParseError>(error),
    }
}

/// An outcome of parsing is the one that is expected.
pub open spec fn outcome_is(
    result: Result<Option<RxMessage>, MessageParseError>,
    expected: Result<Option<RxModel>, MessageParseError>,
) -> bool {
    match result {
        Ok(Some(message)) => expected == Ok::<Option<RxModel>, MessageParseError>(Some(message@)),
        Ok(None) => expected == Ok::<Option<RxModel>, MessageParseError>(None),
        Err(error) => expected == Err::<Option<RxModel>, MessageParseError>(error),
    }
}

fn parse_arguments_at(msg: &[Json], at: usize) -> (result: Result<
    Option<crate::proto::List>,
    MessageParseError,
>)
    ensures
        match result {
            Ok(arguments) => parsed_arguments_at(crate::json::array_model(msg@), at as int) == Ok::<
                Option<Seq<TvModel>>,
                MessageParseError,
            >(crate::transport::arguments_model(arguments)),
            Err(error) => parsed_arguments_at(crate::json::array_model(msg@), at as int) == Err::<
                Option<Seq<TvModel>>,
                MessageParseError,
            >(error),
        },
{
    if at < msg.len() {
        match helpers::parse_arguments(&msg[at]) {
            Ok(arguments) => Ok(Some(arguments)),
            Err(error) => Err(error),
        }
    } else {
        Ok(None)
    }
}

fn parse_arguments_kw_at(msg: &[Json], at: usize) -> (result: Result<
    Option<crate::proto::Dict>,
    MessageParseError,
>)
    ensures
        match result {
            Ok(arguments_kw) => parsed_arguments_kw_at(crate::json::array_model(msg@), at as int)
                == Ok::<Option<Map<Seq<char>, TvModel>>, MessageParseError>(
                crate::transport::arguments_kw_model(arguments_kw),
            ),
            Err(error) => parsed_arguments_kw_at(crate::json::array_model(msg@), at as int)
                == Err::<Option<Map<Seq<char>, TvModel>>, MessageParseError>(error),
        },
{
    if at < msg.len() {
        match helpers::parse_arguments_kw(&msg[at]) {
            Ok(arguments_kw) => Ok(Some(arguments_kw)),
            Err(error) => Err(error),
        }
    } else {
        Ok(None)
    }
}

/// Parses the items of a WELCOME message after its code.
pub fn parse_welcome(msg: &[Json]) -> (result: Result<rx::Welcome, MessageParseError>)
    ensures
        parsed_as(result, parsed_welcome(crate::json::array_model(msg@))),
{
    if msg.len() != 2 {
        return Err(MessageParseError::BadMessageLength);
    }
    let session: Id<GlobalScope> = match helpers::parse_id(&msg[0]) {
        Ok(session) => session,
        Err(error) => return Err(error),
    };
    let details = match helpers::parse_details(&msg[1]) {
        Ok(details) => details,
        Err(error) => return Err(error),
    };
    Ok(rx::Welcome { session, details })
}

/// Parses the items of an ABORT message after its code.
pub fn parse_abort(msg: &[Json]) -> (result: Result<rx::Abort, MessageParseError>)
    ensures
        parsed_as(result, parsed_abort(crate::json::array_model(msg@))),
{
    if msg.len() != 2 {
        return Err(MessageParseError::BadMessageLength);
    }
    let details = match helpers::parse_details(&msg[0]) {
        Ok(details) => details,
        Err(error) => return Err(error),
    };
    let reason = match helpers::parse_uri(&msg[1]) {
        Ok(reason) => reason,
        Err(error) => return Err(error),
    };
    Ok(rx::Abort { details, reason })
}

/// Parses the items of an ERROR message after its code.
pub fn parse_error(msg: &[Json]) -> (result: Result<rx::Error, MessageParseError>)
    ensures
        parsed_as(result, parsed_error(crate::json::array_model(msg@))),
{
    if msg.len() < 4 || msg.len() > 6 {
        return Err(MessageParseError::BadMessageLength);
    }
    let request_type: u64 = match msg[0].as_u64() {
        Some(request_type) => request_type,
        None => return Err(MessageParseError::ErrorRequestTypeNotInt),
    };
    let request: Id<SessionScope> = match helpers::parse_id(&msg[1]) {
        Ok(request) => request,
        Err(error) => return Err(error),
    };
    let details = match helpers::parse_details(&msg[2]) {
        Ok(details) => details,
        Err(error) => return Err(error),
    };
    let error = match helpers::parse_uri(&msg[3]) {
        Ok(error) => error,
        Err(error) => return Err(error),
    };
    let arguments = match parse_arguments_at(msg, 4) {
        Ok(arguments) => arguments,
        Err(error) => return Err(error),
    };
    let arguments_kw = match parse_arguments_kw_at(msg, 5) {
        Ok(arguments_kw) => arguments_kw,
        Err(error) => return Err(error),
    };
    Ok(rx::Error { request_type, request, details, error, arguments, arguments_kw })
}

/// Parses the items of a GOODBYE message after its code.
pub fn parse_goodbye(msg: &[Json]) -> (result: Result<rx::Goodbye, MessageParseError>)
    ensures
        parsed_as(result, parsed_goodbye(crate::json::array_model(msg@))),
{
    if msg.len() != 2 {
        return Err(MessageParseError::BadMessageLength);
    }
    let details = match helpers::parse_details(&msg[0]) {
        Ok(details) => details,
        Err(error) => return Err(error),
    };
    let reason = match helpers::parse_uri(&msg[1]) {
        Ok(reason) => reason,
        Err(error) => return Err(error),
    };
    Ok(rx::Goodbye { details, reason })
}

/// Parses the items of a SUBSCRIBED message after its code.
pub fn parse_subscribed(msg: &[Json]) -> (result: Result<rx::Subscribed, MessageParseError>)
    ensures
        parsed_as(result, parsed_subscribed(crate::json::array_model(msg@))),
{
    if msg.len() != 2 {
        return Err(MessageParseError::BadMessageLength);
    }
    let request: Id<SessionScope> = match helpers::parse_id(&msg[0]) {
        Ok(request) => request,
        Err(error) => return Err(error),
    };
    let subscription: Id<RouterScope> = match helpers::parse_id(&msg[1]) {
        Ok(subscription) => subscription,
        Err(error) => return Err(error),
    };
    Ok(rx::Subscribed { request, subscription })
}

/// Parses the items of an UNSUBSCRIBED message after its code.
pub fn parse_unsubscribed(msg: &[Json]) -> (result: Result<rx::Unsubscribed, MessageParseError>)
    ensures
        parsed_as(result, parsed_unsubscribed(crate::json::array_model(msg@))),
{
    if msg.len() != 1 {
        return Err(MessageParseError::BadMessageLength);
    }
    match helpers::parse_id(&msg[0]) {
        Ok(request) => Ok(rx::Unsubscribed { request }),
        Err(error) => Err(error),
    }
}

/// Parses the items of an EVENT message after its code.
pub fn parse_event(msg: &[Json]) -> (result: Result<rx::Event, MessageParseError>)
    ensures
        parsed_as(result, parsed_event(crate::json::array_model(msg@))),
{
    if msg.len() < 3 || msg.len() > 5 {
        return Err(MessageParseError::BadMessageLength);
    }
    let subscription: Id<RouterScope> = match helpers::parse_id(&msg[0]) {
        Ok(subscription) => subscription,
        Err(error) => return Err(error),
    };
    let publication: Id<GlobalScope> = match helpers::parse_id(&msg[1]) {
        Ok(publication) => publication,
        Err(error) => return Err(error),
    };
    let details = match helpers::parse_details(&msg[2]) {
        Ok(details) => details,
        Err(error) => return Err(error),
    };
    let arguments = match parse_arguments_at(msg, 3) {
        Ok(arguments) => arguments,
        Err(error) => return Err(error),
    };
    let arguments_kw = match parse_arguments_kw_at(msg, 4) {
        Ok(arguments_kw) => arguments_kw,
        Err(error) => return Err(error),
    };
    Ok(rx::Event { subscription, publication, details, arguments, arguments_kw })
}

/// Makes a message of a JSON value.
///
/// Outputs `Ok(None)` if the message should be skipped (ie, unknown message code).
pub fn parse_json_message(json: &Json) -> (result: Result<Option<RxMessage>, MessageParseError>)
    ensures
        outcome_is(result, parsed_message(json@)),
{
    let values = match json {
        Json::Array(values) => values,
        _ => return Err(MessageParseError::NonArrayJson),
    };
    if values.len() == 0 {
        return Err(MessageParseError::EmptyArray);
    }
    let code: u64 = match values[0].as_u64() {
        Some(code) => code,
        None => return Err(MessageParseError::NonIntegerMessageCode),
    };
    let msg = vstd::slice::slice_subrange(values.as_slice(), 1, values.len());
    assert(crate::json::array_model(msg@) =~= crate::json::array_model(values@).skip(1));
    if code == msg_code::WELCOME {
        match parse_welcome(msg) {
            Ok(message) => Ok(Some(RxMessage::Welcome(message))),
            Err(error) => Err(error),
        }
    } else if code == msg_code::ABORT {
        match parse_abort(msg) {
            Ok(message) => Ok(Some(RxMessage::Abort(message))),
            Err(error) => Err(error),
        }
    } else if code == msg_code::ERROR {
        match parse_error(msg) {
            Ok(message) => Ok(Some(RxMessage::Error(message))),
            Err(error) => Err(error),
        }
    } else if code == msg_code::GOODBYE {
        match parse_goodbye(msg) {
            Ok(message) => Ok(Some(RxMessage::Goodbye(message))),
            Err(error) => Err(error),
        }
    } else if code == msg_code::SUBSCRIBED {
        match parse_subscribed(msg) {
            Ok(message) => Ok(Some(RxMessage::Subscribed(message))),
            Err(error) => Err(error),
        }
    } else if code == msg_code::UNSUBSCRIBED {
        match parse_unsubscribed(msg) {
            Ok(message) => Ok(Some(RxMessage::Unsubscribed(message))),
            Err(error) => Err(error),
        }
    } else if code == msg_code::EVENT {
        match parse_event(msg) {
            Ok(message) => Ok(Some(RxMessage::Event(message))),
            Err(error) => Err(error),
        }
    } else {
        Ok(None)
    }
}

/// Makes a message of a websocket message.
///
/// Outputs `Ok(None)` if the message should be skipped (ie, non-text message or unknown message
/// code).
pub fn parse_message(message: Message) -> (result: Result<Option<RxMessage>, MessageParseError>)
    ensures
        match message {
            Message::Text(text) => match crate::json::parsed_json(text@) {
                Ok(json) => outcome_is(result, parsed_message(json)),
                Err(reason) => result matches Err(MessageParseError::BadJson(error)) && error@
                    == reason,
            },
            _ => result == Ok::<Option<RxMessage>, MessageParseError>(None),
        },
{
    match message {
        Message::Text(text) => match Json::parse(text.as_str()) {
            Ok(json) => parse_json_message(&json),
            Err(error) => Err(MessageParseError::BadJson(error)),
        },
        _ => Ok(None),
    }
}

} // verus!
