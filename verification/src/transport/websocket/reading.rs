//! What is made of the messages that a router sends: from the JSON array to the message.

use vstd::prelude::*;

use crate::json::JsonModel;
use crate::proto::rx::{self, RxMessage, RxModel};
use crate::received::ReceivedModel;
use crate::transport::websocket::listener;
use crate::transport::websocket::parsers::{self, helpers, MessageParseError};
use crate::transport::TvModel;

verus! {

/// The outcome is this error.
pub open spec fn fails<M>(result: Result<M, MessageParseError>, error: MessageParseError) -> bool {
    result matches Err(e) && e == error
}

/// The value is a number that is held as an integer.
pub open spec fn is_integer(json: JsonModel) -> bool {
    json matches JsonModel::Number(Some(_))
}

/// The value is a number that is held as an integer, but is too large for an ID.
pub open spec fn is_out_of_range(json: JsonModel) -> bool {
    json matches JsonModel::Number(Some(id)) && id > 0x20_0000_0000_0000
}

/// The value is read as this dictionary.
pub open spec fn reads_dict(json: JsonModel, dict: Map<Seq<char>, TvModel>) -> bool {
    helpers::json_tv(json) == Some(TvModel::Dict(dict))
}

/// The value is read as this list.
pub open spec fn reads_list(json: JsonModel, list: Seq<TvModel>) -> bool {
    helpers::json_tv(json) == Some(TvModel::List(list))
}

/// The value is read as a dictionary.
pub open spec fn is_dict(json: JsonModel) -> bool {
    helpers::json_tv(json) matches Some(TvModel::Dict(_))
}

/// The value is read as a list.
pub open spec fn is_list(json: JsonModel) -> bool {
    helpers::json_tv(json) matches Some(TvModel::List(_))
}

/// Objects, and nothing else, are read as dictionaries, and arrays, and nothing else, as lists.
pub proof fn lemma_dictionaries_and_lists(json: JsonModel)
    ensures
        is_dict(json) <==> json is Object,
        is_list(json) <==> json is Array,
{
}

/// What is no JSON array with an integer for its code is an error each, and a message with a code
/// other than those of the messages that are made sense of is skipped.
pub proof fn lemma_codes_decide(
    json: JsonModel,
    result: Result<Option<RxMessage>, MessageParseError>,
)
    requires
        parsers::outcome_is(
            result,
            parsers::parsed_message(json),
        ),
    ensures
        match json {
            JsonModel::Array(all) => if all.len() == 0 {
                fails(result, MessageParseError::EmptyArray)
            } else {
                match all[0] {
                    JsonModel::Number(Some(code)) => {
                        &&& code != 2 && code != 3 && code != 6 && code != 8 && code != 33 && code
                            != 35 && code != 36 ==> result == Ok::<
                            Option<RxMessage>,
                            MessageParseError,
                        >(None)
                        &&& result matches Ok(Some(message)) ==> match message {
                            RxMessage::Welcome(_) => code == 2,
                            RxMessage::Abort(_) => code == 3,
                            RxMessage::Goodbye(_) => code == 6,
                            RxMessage::Error(_) => code == 8,
                            RxMessage::Subscribed(_) => code == 33,
                            RxMessage::Unsubscribed(_) => code == 35,
                            RxMessage::Event(_) => code == 36,
                            _ => false,
                        }
                    },
                    _ => fails(result, MessageParseError::NonIntegerMessageCode),
                }
            },
            _ => fails(result, MessageParseError::NonArrayJson),
        },
{
}

/// The message says what the items after its code say, part by part.
pub open spec fn welcome_says(message: rx::Welcome, items: Seq<JsonModel>) -> bool {
    &&& items.len() == 2
    &&& items[0] == JsonModel::Number(Some(message.session@))
    &&& message.session@ <= 0x20_0000_0000_0000
    &&& reads_dict(items[1], crate::transport::dict_model(message.details))
}

/// A WELCOME message is made if and only if the length is right and every part is as it
/// should be, and it says what the parts say; otherwise the first part that is not as it should be
/// decides on the error.
pub proof fn lemma_welcome_is_parsed(
    all: Seq<JsonModel>,
    result: Result<Option<RxMessage>, MessageParseError>,
)
    requires
        all.len() > 0,
        all[0] == JsonModel::Number(Some(2)),
        parsers::outcome_is(result, parsers::parsed_message(JsonModel::Array(all))),
    ensures
        ({
            let items = all.skip(1);
            if items.len() != 2 {
                fails(result, MessageParseError::BadMessageLength)
            } else if !is_integer(items[0]) {
                fails(result, MessageParseError::IdNotInteger)
            } else if is_out_of_range(items[0]) {
                fails(result, MessageParseError::IdOutOfRange)
            } else if !is_dict(items[1]) {
                fails(result, MessageParseError::DetailsNotDictionary)
            } else {
                &&& result matches Ok(Some(RxMessage::Welcome(message)))
                &&& welcome_says(message, items)
            }
        }),
{
}

/// The same of the items alone.
pub proof fn lemma_welcome_items_are_parsed(
    items: Seq<JsonModel>,
    result: Result<rx::Welcome, MessageParseError>,
)
    requires
        parsers::parsed_as(result, parsers::parsed_welcome(items)),
    ensures
        if items.len() != 2 {
            fails(result, MessageParseError::BadMessageLength)
        } else if !is_integer(items[0]) {
            fails(result, MessageParseError::IdNotInteger)
        } else if is_out_of_range(items[0]) {
            fails(result, MessageParseError::IdOutOfRange)
        } else if !is_dict(items[1]) {
            fails(result, MessageParseError::DetailsNotDictionary)
        } else {
            result matches Ok(message) && welcome_says(message, items)
        },
{
}

/// The message says what the items after its code say, part by part.
pub open spec fn abort_says(message: rx::Abort, items: Seq<JsonModel>) -> bool {
    &&& items.len() == 2
    &&& reads_dict(items[0], crate::transport::dict_model(message.details))
    &&& items[1] == JsonModel::Str(message.reason@)
    &&& crate::uri::is_relaxed_uri(message.reason@)
}

/// An ABORT message is made if and only if the length is right and every part is as it
/// should be, and it says what the parts say; otherwise the first part that is not as it should be
/// decides on the error.
pub proof fn lemma_abort_is_parsed(
    all: Seq<JsonModel>,
    result: Result<Option<RxMessage>, MessageParseError>,
)
    requires
        all.len() > 0,
        all[0] == JsonModel::Number(Some(3)),
        parsers::outcome_is(result, parsers::parsed_message(JsonModel::Array(all))),
    ensures
        ({
            let items = all.skip(1);
            if items.len() != 2 {
                fails(result, MessageParseError::BadMessageLength)
            } else if !is_dict(items[0]) {
                fails(result, MessageParseError::DetailsNotDictionary)
            } else if !(items[1] is Str) {
                fails(result, MessageParseError::UriNotString)
            } else if !crate::uri::is_relaxed_uri(items[1]->Str_0) {
                fails(result, MessageParseError::BadUri)
            } else {
                &&& result matches Ok(Some(RxMessage::Abort(message)))
                &&& abort_says(message, items)
            }
        }),
{
}

/// The same of the items alone.
pub proof fn lemma_abort_items_are_parsed(
    items: Seq<JsonModel>,
    result: Result<rx::Abort, MessageParseError>,
)
    requires
        parsers::parsed_as(result, parsers::parsed_abort(items)),
    ensures
        if items.len() != 2 {
            fails(result, MessageParseError::BadMessageLength)
        } else if !is_dict(items[0]) {
            fails(result, MessageParseError::DetailsNotDictionary)
        } else if !(items[1] is Str) {
            fails(result, MessageParseError::UriNotString)
        } else if !crate::uri::is_relaxed_uri(items[1]->Str_0) {
            fails(result, MessageParseError::BadUri)
        } else {
            result matches Ok(message) && abort_says(message, items)
        },
{
}

/// The message says what the items after its code say, part by part.
pub open spec fn goodbye_says(message: rx::Goodbye, items: Seq<JsonModel>) -> bool {
    &&& items.len() == 2
    &&& reads_dict(items[0], crate::transport::dict_model(message.details))
    &&& items[1] == JsonModel::Str(message.reason@)
    &&& crate::uri::is_relaxed_uri(message.reason@)
}

/// A GOODBYE message is made if and only if the length is right and every part is as it
/// should be, and it says what the parts say; otherwise the first part that is not as it should be
/// decides on the error.
pub proof fn lemma_goodbye_is_parsed(
    all: Seq<JsonModel>,
    result: Result<Option<RxMessage>, MessageParseError>,
)
    requires
        all.len() > 0,
        all[0] == JsonModel::Number(Some(6)),
        parsers::outcome_is(result, parsers::parsed_message(JsonModel::Array(all))),
    ensures
        ({
            let items = all.skip(1);
            if items.len() != 2 {
                fails(result, MessageParseError::BadMessageLength)
            } else if !is_dict(items[0]) {
                fails(result, MessageParseError::DetailsNotDictionary)
            } else if !(items[1] is Str) {
                fails(result, MessageParseError::UriNotString)
            } else if !crate::uri::is_relaxed_uri(items[1]->Str_0) {
                fails(result, MessageParseError::BadUri)
            } else {
                &&& result matches Ok(Some(RxMessage::Goodbye(message)))
                &&& goodbye_says(message, items)
            }
        }),
{
}

/// The same of the items alone.
pub proof fn lemma_goodbye_items_are_parsed(
    items: Seq<JsonModel>,
    result: Result<rx::Goodbye, MessageParseError>,
)
    requires
        parsers::parsed_as(result, parsers::parsed_goodbye(items)),
    ensures
        if items.len() != 2 {
            fails(result, MessageParseError::BadMessageLength)
        } else if !is_dict(items[0]) {
            fails(result, MessageParseError::DetailsNotDictionary)
        } else if !(items[1] is Str) {
            fails(result, MessageParseError::UriNotString)
        } else if !crate::uri::is_relaxed_uri(items[1]->Str_0) {
            fails(result, MessageParseError::BadUri)
        } else {
            result matches Ok(message) && goodbye_says(message, items)
        },
{
}

/// The message says what the items after its code say, part by part.
pub open spec fn error_says(message: rx::Error, items: Seq<JsonModel>) -> bool {
    &&& 4 <= items.len() <= 6
    &&& items[0] == JsonModel::Number(Some(message.request_type))
    &&& items[1] == JsonModel::Number(Some(message.request@))
    &&& message.request@ <= 0x20_0000_0000_0000
    &&& reads_dict(items[2], crate::transport::dict_model(message.details))
    &&& items[3] == JsonModel::Str(message.error@)
    &&& crate::uri::is_relaxed_uri(message.error@)
    &&& match message.arguments {
        Some(list) => items.len() > 4 && reads_list(
            items[4],
            crate::transport::list_model(list@),
        ),
        None => items.len() <= 4,
    }
    &&& match message.arguments_kw {
        Some(dict) => items.len() > 5 && reads_dict(items[5], crate::transport::dict_model(dict)),
        None => items.len() <= 5,
    }
}

/// An ERROR message is made if and only if the length is right and every part is as it
/// should be, and it says what the parts say; otherwise the first part that is not as it should be
/// decides on the error.
pub proof fn lemma_error_is_parsed(
    all: Seq<JsonModel>,
    result: Result<Option<RxMessage>, MessageParseError>,
)
    requires
        all.len() > 0,
        all[0] == JsonModel::Number(Some(8)),
        parsers::outcome_is(result, parsers::parsed_message(JsonModel::Array(all))),
    ensures
        ({
            let items = all.skip(1);
            if items.len() < 4 || items.len() > 6 {
                fails(result, MessageParseError::BadMessageLength)
            } else if !is_integer(items[0]) {
                fails(result, MessageParseError::ErrorRequestTypeNotInt)
            } else if !is_integer(items[1]) {
                fails(result, MessageParseError::IdNotInteger)
            } else if is_out_of_range(items[1]) {
                fails(result, MessageParseError::IdOutOfRange)
            } else if !is_dict(items[2]) {
                fails(result, MessageParseError::DetailsNotDictionary)
            } else if !(items[3] is Str) {
                fails(result, MessageParseError::UriNotString)
            } else if !crate::uri::is_relaxed_uri(items[3]->Str_0) {
                fails(result, MessageParseError::BadUri)
            } else if items.len() > 4 && !is_list(items[4]) {
                fails(result, MessageParseError::ArgumentsNotList)
            } else if items.len() > 5 && !is_dict(items[5]) {
                fails(result, MessageParseError::ArguementsKwNotDictionary)
            } else {
                &&& result matches Ok(Some(RxMessage::Error(message)))
                &&& error_says(message, items)
            }
        }),
{
}

/// The same of the items alone.
pub proof fn lemma_error_items_are_parsed(
    items: Seq<JsonModel>,
    result: Result<rx::Error, MessageParseError>,
)
    requires
        parsers::parsed_as(result, parsers::parsed_error(items)),
    ensures
        if items.len() < 4 || items.len() > 6 {
            fails(result, MessageParseError::BadMessageLength)
        } else if !is_integer(items[0]) {
            fails(result, MessageParseError::ErrorRequestTypeNotInt)
        } else if !is_integer(items[1]) {
            fails(result, MessageParseError::IdNotInteger)
        } else if is_out_of_range(items[1]) {
            fails(result, MessageParseError::IdOutOfRange)
        } else if !is_dict(items[2]) {
            fails(result, MessageParseError::DetailsNotDictionary)
        } else if !(items[3] is Str) {
            fails(result, MessageParseError::UriNotString)
        } else if !crate::uri::is_relaxed_uri(items[3]->Str_0) {
            fails(result, MessageParseError::BadUri)
        } else if items.len() > 4 && !is_list(items[4]) {
            fails(result, MessageParseError::ArgumentsNotList)
        } else if items.len() > 5 && !is_dict(items[5]) {
            fails(result, MessageParseError::ArguementsKwNotDictionary)
        } else {
            result matches Ok(message) && error_says(message, items)
        },
{
}

/// The message says what the items after its code say, part by part.
pub open spec fn subscribed_says(message: rx::Subscribed, items: Seq<JsonModel>) -> bool {
    &&& items.len() == 2
    &&& items[0] == JsonModel::Number(Some(message.request@))
    &&& message.request@ <= 0x20_0000_0000_0000
    &&& items[1] == JsonModel::Number(Some(message.subscription@))
    &&& message.subscription@ <= 0x20_0000_0000_0000
}

/// A SUBSCRIBED message is made if and only if the length is right and every part is as it
/// should be, and it says what the parts say; otherwise the first part that is not as it should be
/// decides on the error.
pub proof fn lemma_subscribed_is_parsed(
    all: Seq<JsonModel>,
    result: Result<Option<RxMessage>, MessageParseError>,
)
    requires
        all.len() > 0,
        all[0] == JsonModel::Number(Some(33)),
        parsers::outcome_is(result, parsers::parsed_message(JsonModel::Array(all))),
    ensures
        ({
            let items = all.skip(1);
            if items.len() != 2 {
                fails(result, MessageParseError::BadMessageLength)
            } else if !is_integer(items[0]) {
                fails(result, MessageParseError::IdNotInteger)
            } else if is_out_of_range(items[0]) {
                fails(result, MessageParseError::IdOutOfRange)
            } else if !is_integer(items[1]) {
                fails(result, MessageParseError::IdNotInteger)
            } else if is_out_of_range(items[1]) {
                fails(result, MessageParseError::IdOutOfRange)
            } else {
                &&& result matches Ok(Some(RxMessage::Subscribed(message)))
                &&& subscribed_says(message, items)
            }
        }),
{
}

/// The same of the items alone.
pub proof fn lemma_subscribed_items_are_parsed(
    items: Seq<JsonModel>,
    result: Result<rx::Subscribed, MessageParseError>,
)
    requires
        parsers::parsed_as(result, parsers::parsed_subscribed(items)),
    ensures
        if items.len() != 2 {
            fails(result, MessageParseError::BadMessageLength)
        } else if !is_integer(items[0]) {
            fails(result, MessageParseError::IdNotInteger)
        } else if is_out_of_range(items[0]) {
            fails(result, MessageParseError::IdOutOfRange)
        } else if !is_integer(items[1]) {
            fails(result, MessageParseError::IdNotInteger)
        } else if is_out_of_range(items[1]) {
            fails(result, MessageParseError::IdOutOfRange)
        } else {
            result matches Ok(message) && subscribed_says(message, items)
        },
{
}

/// The message says what the items after its code say, part by part.
pub open spec fn unsubscribed_says(message: rx::Unsubscribed, items: Seq<JsonModel>) -> bool {
    &&& items.len() == 1
    &&& items[0] == JsonModel::Number(Some(message.request@))
    &&& message.request@ <= 0x20_0000_0000_0000
}

/// An UNSUBSCRIBED message is made if and only if the length is right and every part is as it
/// should be, and it says what the parts say; otherwise the first part that is not as it should be
/// decides on the error.
pub proof fn lemma_unsubscribed_is_parsed(
    all: Seq<JsonModel>,
    result: Result<Option<RxMessage>, MessageParseError>,
)
    requires
        all.len() > 0,
        all[0] == JsonModel::Number(Some(35)),
        parsers::outcome_is(result, parsers::parsed_message(JsonModel::Array(all))),
    ensures
        ({
            let items = all.skip(1);
            if items.len() != 1 {
                fails(result, MessageParseError::BadMessageLength)
            } else if !is_integer(items[0]) {
                fails(result, MessageParseError::IdNotInteger)
            } else if is_out_of_range(items[0]) {
                fails(result, MessageParseError::IdOutOfRange)
            } else {
                &&& result matches Ok(Some(RxMessage::Unsubscribed(message)))
                &&& unsubscribed_says(message, items)
            }
        }),
{
}

/// The same of the items alone.
pub proof fn lemma_unsubscribed_items_are_parsed(
    items: Seq<JsonModel>,
    result: Result<rx::Unsubscribed, MessageParseError>,
)
    requires
        parsers::parsed_as(result, parsers::parsed_unsubscribed(items)),
    ensures
        if items.len() != 1 {
            fails(result, MessageParseError::BadMessageLength)
        } else if !is_integer(items[0]) {
            fails(result, MessageParseError::IdNotInteger)
        } else if is_out_of_range(items[0]) {
            fails(result, MessageParseError::IdOutOfRange)
        } else {
            result matches Ok(message) && unsubscribed_says(message, items)
        },
{
}

/// The message says what the items after its code say, part by part.
pub open spec fn event_says(message: rx::Event, items: Seq<JsonModel>) -> bool {
    &&& 3 <= items.len() <= 5
    &&& items[0] == JsonModel::Number(Some(message.subscription@))
    &&& message.subscription@ <= 0x20_0000_0000_0000
    &&& items[1] == JsonModel::Number(Some(message.publication@))
    &&& message.publication@ <= 0x20_0000_0000_0000
    &&& reads_dict(items[2], crate::transport::dict_model(message.details))
    &&& match message.arguments {
        Some(list) => items.len() > 3 && reads_list(
            items[3],
            crate::transport::list_model(list@),
        ),
        None => items.len() <= 3,
    }
    &&& match message.arguments_kw {
        Some(dict) => items.len() > 4 && reads_dict(items[4], crate::transport::dict_model(dict)),
        None => items.len() <= 4,
    }
}

/// An EVENT message is made if and only if the length is right and every part is as it
/// should be, and it says what the parts say; otherwise the first part that is not as it should be
/// decides on the error.
pub proof fn lemma_event_is_parsed(
    all: Seq<JsonModel>,
    result: Result<Option<RxMessage>, MessageParseError>,
)
    requires
        all.len() > 0,
        all[0] == JsonModel::Number(Some(36)),
        parsers::outcome_is(result, parsers::parsed_message(JsonModel::Array(all))),
    ensures
        ({
            let items = all.skip(1);
            if items.len() < 3 || items.len() > 5 {
                fails(result, MessageParseError::BadMessageLength)
            } else if !is_integer(items[0]) {
                fails(result, MessageParseError::IdNotInteger)
            } else if is_out_of_range(items[0]) {
                fails(result, MessageParseError::IdOutOfRange)
            } else if !is_integer(items[1]) {
                fails(result, MessageParseError::IdNotInteger)
            } else if is_out_of_range(items[1]) {
                fails(result, MessageParseError::IdOutOfRange)
            } else if !is_dict(items[2]) {
                fails(result, MessageParseError::DetailsNotDictionary)
            } else if items.len() > 3 && !is_list(items[3]) {
                fails(result, MessageParseError::ArgumentsNotList)
            } else if items.len() > 4 && !is_dict(items[4]) {
                fails(result, MessageParseError::ArguementsKwNotDictionary)
            } else {
                &&& result matches Ok(Some(RxMessage::Event(message)))
                &&& event_says(message, items)
            }
        }),
{
}

/// The same of the items alone.
pub proof fn lemma_event_items_are_parsed(
    items: Seq<JsonModel>,
    result: Result<rx::Event, MessageParseError>,
)
    requires
        parsers::parsed_as(result, parsers::parsed_event(items)),
    ensures
        if items.len() < 3 || items.len() > 5 {
            fails(result, MessageParseError::BadMessageLength)
        } else if !is_integer(items[0]) {
            fails(result, MessageParseError::IdNotInteger)
        } else if is_out_of_range(items[0]) {
            fails(result, MessageParseError::IdOutOfRange)
        } else if !is_integer(items[1]) {
            fails(result, MessageParseError::IdNotInteger)
        } else if is_out_of_range(items[1]) {
            fails(result, MessageParseError::IdOutOfRange)
        } else if !is_dict(items[2]) {
            fails(result, MessageParseError::DetailsNotDictionary)
        } else if items.len() > 3 && !is_list(items[3]) {
            fails(result, MessageParseError::ArgumentsNotList)
        } else if items.len() > 4 && !is_dict(items[4]) {
            fails(result, MessageParseError::ArguementsKwNotDictionary)
        } else {
            result matches Ok(message) && event_says(message, items)
        },
{
}

/// For every session ID in range and all details, the WELCOME message that a router writes is read
/// as it was written.
pub proof fn lemma_welcome_read_back(session: u64, details: Map<Seq<char>, TvModel>)
    requires
        session <= 0x20_0000_0000_0000,
    ensures
        ({
            let json = JsonModel::Array(
                seq![
                    JsonModel::Number(Some(2)),
                    JsonModel::Number(Some(session)),
                    crate::transport::value_json::tv_json(TvModel::Dict(details)),
                ],
            );
            let message = RxModel::Welcome { session, details };
            &&& parsers::parsed_message(json) == Ok::<
                Option<RxModel>,
                MessageParseError,
            >(Some(message))
            &&& listener::heard(json) == Some(message)
        }),
{
    crate::transport::websocket::round_trip::lemma_value_read_back(TvModel::Dict(details));
    let all = seq![
        JsonModel::Number(Some(2)),
        JsonModel::Number(Some(session)),
        crate::transport::value_json::tv_json(TvModel::Dict(details)),
    ];
    assert(all.skip(1)[0] == all[1]);
    assert(all.skip(1)[1] == all[2]);
}

/// For all IDs in range, the SUBSCRIBED and the UNSUBSCRIBED message that a router writes are read
/// as they were written.
pub proof fn lemma_subscribed_read_back(request: u64, subscription: u64)
    requires
        request <= 0x20_0000_0000_0000,
        subscription <= 0x20_0000_0000_0000,
    ensures
        ({
            let json = JsonModel::Array(
                seq![
                    JsonModel::Number(Some(33)),
                    JsonModel::Number(Some(request)),
                    JsonModel::Number(Some(subscription)),
                ],
            );
            let message = RxModel::Subscribed { request, subscription };
            &&& parsers::parsed_message(json) == Ok::<
                Option<RxModel>,
                MessageParseError,
            >(Some(message))
            &&& listener::heard(json) == Some(message)
        }),
        ({
            let json = JsonModel::Array(
                seq![JsonModel::Number(Some(35)), JsonModel::Number(Some(request))],
            );
            let message = RxModel::Unsubscribed { request };
            &&& parsers::parsed_message(json) == Ok::<
                Option<RxModel>,
                MessageParseError,
            >(Some(message))
            &&& listener::heard(json) == Some(message)
        }),
{
    let all = seq![
        JsonModel::Number(Some(33)),
        JsonModel::Number(Some(request)),
        JsonModel::Number(Some(subscription)),
    ];
    assert(all.skip(1)[0] == all[1]);
    assert(all.skip(1)[1] == all[2]);
    let all = seq![JsonModel::Number(Some(35)), JsonModel::Number(Some(request))];
    assert(all.skip(1)[0] == all[1]);
}

/// For all IDs in range, all details and all data, the EVENT message that a router writes is read
/// as it was written: with both kinds of data, with positional data only, and without data.
pub proof fn lemma_event_read_back(
    subscription: u64,
    publication: u64,
    details: Map<Seq<char>, TvModel>,
    list: Seq<TvModel>,
    dict: Map<Seq<char>, TvModel>,
)
    requires
        subscription <= 0x20_0000_0000_0000,
        publication <= 0x20_0000_0000_0000,
    ensures
        ({
            let bare = seq![
                JsonModel::Number(Some(36)),
                JsonModel::Number(Some(subscription)),
                JsonModel::Number(Some(publication)),
                crate::transport::value_json::tv_json(TvModel::Dict(details)),
            ];
            let positional = bare.push(
                crate::transport::value_json::tv_json(TvModel::List(list)),
            );
            let both = positional.push(crate::transport::value_json::tv_json(TvModel::Dict(dict)));
            &&& event_read(bare, subscription, publication, details, None, None)
            &&& event_read(positional, subscription, publication, details, Some(list), None)
            &&& event_read(both, subscription, publication, details, Some(list), Some(dict))
        }),
{
    crate::transport::websocket::round_trip::lemma_value_read_back(TvModel::Dict(details));
    crate::transport::websocket::round_trip::lemma_value_read_back(TvModel::Dict(dict));
    crate::transport::websocket::round_trip::lemma_value_read_back(TvModel::List(list));
    let bare = seq![
        JsonModel::Number(Some(36)),
        JsonModel::Number(Some(subscription)),
        JsonModel::Number(Some(publication)),
        crate::transport::value_json::tv_json(TvModel::Dict(details)),
    ];
    let positional = bare.push(crate::transport::value_json::tv_json(TvModel::List(list)));
    let both = positional.push(crate::transport::value_json::tv_json(TvModel::Dict(dict)));
    assert(bare.skip(1)[0] == bare[1]);
    assert(bare.skip(1)[1] == bare[2]);
    assert(bare.skip(1)[2] == bare[3]);
    assert(positional.skip(1)[0] == positional[1]);
    assert(positional.skip(1)[1] == positional[2]);
    assert(positional.skip(1)[2] == positional[3]);
    assert(positional.skip(1)[3] == positional[4]);
    assert(both.skip(1)[0] == both[1]);
    assert(both.skip(1)[1] == both[2]);
    assert(both.skip(1)[2] == both[3]);
    assert(both.skip(1)[3] == both[4]);
    assert(both.skip(1)[4] == both[5]);
}

/// The items are parsed, and heard, as an EVENT message with these parts.
pub open spec fn event_read(
    all: Seq<JsonModel>,
    subscription: u64,
    publication: u64,
    details: Map<Seq<char>, TvModel>,
    arguments: Option<Seq<TvModel>>,
    arguments_kw: Option<Map<Seq<char>, TvModel>>,
) -> bool {
    let message = RxModel::Event { subscription, publication, details, arguments, arguments_kw };
    &&& parsers::parsed_message(JsonModel::Array(all)) == Ok::<
        Option<RxModel>,
        MessageParseError,
    >(Some(message))
    &&& listener::heard(JsonModel::Array(all)) == Some(message)
}

/// A WELCOME message is heard if and only if it makes sense, whatever its IDs are, and then it
/// says what its parts say.
pub proof fn lemma_welcome_is_heard(all: Seq<JsonModel>)
    requires
        all.len() > 0,
        all[0] == JsonModel::Number(Some(2)),
    ensures
        ({
            let items = all.skip(1);
            match listener::heard(JsonModel::Array(all)) {
                Some(RxModel::Welcome { session, details }) => {
                    &&& items.len() == 2
                    &&& items[0] == JsonModel::Number(Some(session))
                    &&& reads_dict(items[1], details)
                },
                Some(_) => false,
                None => !{
                    &&& items.len() == 2
                    &&& is_integer(items[0])
                    &&& is_dict(items[1])
                },
            }
        }),
        listener::heard(JsonModel::Array(all)) == listener::heard_welcome(all.skip(1)),
{
}

/// An ABORT message is heard if and only if it makes sense, whatever its IDs are, and then it
/// says what its parts say.
pub proof fn lemma_abort_is_heard(all: Seq<JsonModel>)
    requires
        all.len() > 0,
        all[0] == JsonModel::Number(Some(3)),
    ensures
        ({
            let items = all.skip(1);
            match listener::heard(JsonModel::Array(all)) {
                Some(RxModel::Abort { details, reason }) => {
                    &&& items.len() == 2
                    &&& reads_dict(items[0], details)
                    &&& items[1] == JsonModel::Str(reason)
                },
                Some(_) => false,
                None => !{
                    &&& items.len() == 2
                    &&& is_dict(items[0])
                    &&& items[1] is Str
                    &&& crate::uri::is_relaxed_uri(items[1]->Str_0)
                },
            }
        }),
        listener::heard(JsonModel::Array(all)) == listener::heard_abort(all.skip(1)),
{
}

/// A GOODBYE message is heard if and only if it makes sense, whatever its IDs are, and then it
/// says what its parts say.
pub proof fn lemma_goodbye_is_heard(all: Seq<JsonModel>)
    requires
        all.len() > 0,
        all[0] == JsonModel::Number(Some(6)),
    ensures
        ({
            let items = all.skip(1);
            match listener::heard(JsonModel::Array(all)) {
                Some(RxModel::Goodbye { details, reason }) => {
                    &&& items.len() == 2
                    &&& reads_dict(items[0], details)
                    &&& items[1] == JsonModel::Str(reason)
                },
                Some(_) => false,
                None => !{
                    &&& items.len() == 2
                    &&& is_dict(items[0])
                    &&& items[1] is Str
                    &&& crate::uri::is_relaxed_uri(items[1]->Str_0)
                },
            }
        }),
        listener::heard(JsonModel::Array(all)) == listener::heard_goodbye(all.skip(1)),
{
}

/// A SUBSCRIBED message is heard if and only if it makes sense, whatever its IDs are, and then it
/// says what its parts say.
pub proof fn lemma_subscribed_is_heard(all: Seq<JsonModel>)
    requires
        all.len() > 0,
        all[0] == JsonModel::Number(Some(33)),
    ensures
        ({
            let items = all.skip(1);
            match listener::heard(JsonModel::Array(all)) {
                Some(RxModel::Subscribed { request, subscription }) => {
                    &&& items.len() == 2
                    &&& items[0] == JsonModel::Number(Some(request))
                    &&& items[1] == JsonModel::Number(Some(subscription))
                },
                Some(_) => false,
                None => !{
                    &&& items.len() == 2
                    &&& is_integer(items[0])
                    &&& is_integer(items[1])
                },
            }
        }),
        listener::heard(JsonModel::Array(all)) == listener::heard_subscribed(all.skip(1)),
{
}

/// An UNSUBSCRIBED message is heard if and only if it makes sense, whatever its IDs are, and then it
/// says what its parts say.
pub proof fn lemma_unsubscribed_is_heard(all: Seq<JsonModel>)
    requires
        all.len() > 0,
        all[0] == JsonModel::Number(Some(35)),
    ensures
        ({
            let items = all.skip(1);
            match listener::heard(JsonModel::Array(all)) {
                Some(RxModel::Unsubscribed { request }) => {
                    &&& items.len() == 1
                    &&& items[0] == JsonModel::Number(Some(request))
                },
                Some(_) => false,
                None => !{
                    &&& items.len() == 1
                    &&& is_integer(items[0])
                },
            }
        }),
        listener::heard(JsonModel::Array(all)) == listener::heard_unsubscribed(all.skip(1)),
{
}

/// An EVENT message is heard if and only if it makes sense, whatever its IDs are, and then it
/// says what its parts say.
pub proof fn lemma_event_is_heard(all: Seq<JsonModel>)
    requires
        all.len() > 0,
        all[0] == JsonModel::Number(Some(36)),
    ensures
        ({
            let items = all.skip(1);
            match listener::heard(JsonModel::Array(all)) {
                Some(RxModel::Event { subscription, publication, details, arguments, arguments_kw }) => {
                    &&& 3 <= items.len() <= 5
                    &&& items[0] == JsonModel::Number(Some(subscription))
                    &&& items[1] == JsonModel::Number(Some(publication))
                    &&& reads_dict(items[2], details)
                    &&& match arguments {
                        Some(list) => items.len() > 3 && reads_list(items[3], list),
                        None => items.len() <= 3,
                    }
                    &&& match arguments_kw {
                        Some(dict) => items.len() > 4 && reads_dict(items[4], dict),
                        None => items.len() <= 4,
                    }
                },
                Some(_) => false,
                None => !{
                    &&& 3 <= items.len() <= 5
                    &&& is_integer(items[0])
                    &&& is_integer(items[1])
                    &&& is_dict(items[2])
                    &&& (items.len() > 3 ==> is_list(items[3]))
                    &&& (items.len() > 4 ==> is_dict(items[4]))
                },
            }
        }),
        listener::heard(JsonModel::Array(all)) == listener::heard_event(all.skip(1)),
{
}

/// What is no JSON array with an integer for its code is not heard, nor is a message with a code
/// other than those that are listened for.
pub proof fn lemma_other_codes_are_not_heard(json: JsonModel)
    ensures
        match json {
            JsonModel::Array(all) => {
                &&& all.len() == 0 ==> listener::heard(json) is None
                &&& all.len() > 0 && !(all[0] matches JsonModel::Number(Some(code)) && (code == 2
                    || code == 3 || code == 6 || code == 33 || code == 35 || code == 36))
                    ==> listener::heard(json) is None
            },
            _ => listener::heard(json) is None,
        },
{
}

/// A message that is heard is added behind those of its type, saying what was heard; everyone who
/// waited for one of that type is notified, and the rest stays as it is. Without a message nothing
/// changes and nobody is notified.
pub proof fn lemma_heard_is_added(
    before: ReceivedModel,
    after: ReceivedModel,
    message: Option<RxModel>,
    woken: Seq<u64>,
)
    requires
        listener::added(before, after, message, woken),
    ensures
        match message {
            None => after == before && woken.len() == 0,
            Some(RxModel::Welcome { session, details }) => {
                let value = after.welcome.items.last();
                &&& after.welcome.items.len() == before.welcome.items.len() + 1
                &&& after.welcome.items.drop_last() == before.welcome.items
                &&& after.welcome.waiting.len() == 0
                &&& woken == before.welcome.waiting
                &&& after == (ReceivedModel { welcome: after.welcome, ..before })
                &&& value.session@ == session
                &&& crate::transport::dict_model(value.details) == details
            },
            Some(RxModel::Abort { details, reason }) => {
                let value = after.abort.items.last();
                &&& after.abort.items.len() == before.abort.items.len() + 1
                &&& after.abort.items.drop_last() == before.abort.items
                &&& after.abort.waiting.len() == 0
                &&& woken == before.abort.waiting
                &&& after == (ReceivedModel { abort: after.abort, ..before })
                &&& crate::transport::dict_model(value.details) == details
                &&& value.reason@ == reason
            },
            Some(RxModel::Goodbye { details, reason }) => {
                let value = after.goodbye.items.last();
                &&& after.goodbye.items.len() == before.goodbye.items.len() + 1
                &&& after.goodbye.items.drop_last() == before.goodbye.items
                &&& after.goodbye.waiting.len() == 0
                &&& woken == before.goodbye.waiting
                &&& after == (ReceivedModel { goodbye: after.goodbye, ..before })
                &&& crate::transport::dict_model(value.details) == details
                &&& value.reason@ == reason
            },
            Some(RxModel::Subscribed { request, subscription }) => {
                let value = after.subscribed.items.last();
                &&& after.subscribed.items.len() == before.subscribed.items.len() + 1
                &&& after.subscribed.items.drop_last() == before.subscribed.items
                &&& after.subscribed.waiting.len() == 0
                &&& woken == before.subscribed.waiting
                &&& after == (ReceivedModel { subscribed: after.subscribed, ..before })
                &&& value.request@ == request
                &&& value.subscription@ == subscription
            },
            Some(RxModel::Unsubscribed { request }) => {
                let value = after.unsubscribed.items.last();
                &&& after.unsubscribed.items.len() == before.unsubscribed.items.len() + 1
                &&& after.unsubscribed.items.drop_last() == before.unsubscribed.items
                &&& after.unsubscribed.waiting.len() == 0
                &&& woken == before.unsubscribed.waiting
                &&& after == (ReceivedModel { unsubscribed: after.unsubscribed, ..before })
                &&& value.request@ == request
            },
            Some(RxModel::Event { subscription, publication, details, arguments, arguments_kw }) => {
                let value = after.event.items.last();
                &&& after.event.items.len() == before.event.items.len() + 1
                &&& after.event.items.drop_last() == before.event.items
                &&& after.event.waiting.len() == 0
                &&& woken == before.event.waiting
                &&& after == (ReceivedModel { event: after.event, ..before })
                &&& value.subscription@ == subscription
                &&& value.publication@ == publication
                &&& crate::transport::dict_model(value.details) == details
                &&& crate::transport::arguments_model(value.arguments) == arguments
                &&& crate::transport::arguments_kw_model(value.arguments_kw) == arguments_kw
            },
            Some(_) => false,
        },
{
    if let Some(RxModel::Welcome { .. }) = message {
        assert(after.welcome.items.drop_last() =~= before.welcome.items);
    }
    if let Some(RxModel::Abort { .. }) = message {
        assert(after.abort.items.drop_last() =~= before.abort.items);
    }
    if let Some(RxModel::Goodbye { .. }) = message {
        assert(after.goodbye.items.drop_last() =~= before.goodbye.items);
    }
    if let Some(RxModel::Subscribed { .. }) = message {
        assert(after.subscribed.items.drop_last() =~= before.subscribed.items);
    }
    if let Some(RxModel::Unsubscribed { .. }) = message {
        assert(after.unsubscribed.items.drop_last() =~= before.unsubscribed.items);
    }
    if let Some(RxModel::Event { .. }) = message {
        assert(after.event.items.drop_last() =~= before.event.items);
    }
}

} // verus!
