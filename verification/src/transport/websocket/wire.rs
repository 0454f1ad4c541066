//! What messages look like on the wire: the JSON array that a message is sent as.

use vstd::prelude::*;

use crate::dict::Dict;
use crate::id::{Id, RouterScope, SessionScope};
use crate::json::JsonModel;
use crate::proto::TxMessage;
use crate::transport::{TransportableValue, TvModel};
use crate::uri::Uri;

verus! {

/// What a dictionary is written as.
pub open spec fn dict_item(dict: Dict<TransportableValue>) -> JsonModel {
    crate::transport::value_json::tv_json(TvModel::Dict(crate::transport::dict_model(dict)))
}

/// What a list is written as.
pub open spec fn list_item(list: Vec<TransportableValue>) -> JsonModel {
    crate::transport::value_json::tv_json(TvModel::List(crate::transport::list_model(list@)))
}

/// Whatever comes first in a message, the positional data follows it, and then the key-value data;
/// without positional data nothing follows.
pub open spec fn followed_by(
    items: Seq<JsonModel>,
    first: Seq<JsonModel>,
    arguments: Option<Vec<TransportableValue>>,
    arguments_kw: Option<Dict<TransportableValue>>,
) -> bool {
    let n = first.len() as int;
    &&& items.len() >= n
    &&& items.take(n) == first
    &&& match (arguments, arguments_kw) {
        (None, _) => items.len() == n,
        (Some(list), None) => items.len() == n + 1 && items[n] == list_item(list),
        (Some(list), Some(dict)) => items.len() == n + 2 && items[n] == list_item(list) && items[n
            + 1] == dict_item(dict),
    }
}

/// Lists and dictionaries are read back from what they are written as, whole.
pub proof fn lemma_items_read_back(
    list: Vec<TransportableValue>,
    dict: Dict<TransportableValue>,
)
    ensures
        crate::transport::websocket::parsers::helpers::json_tv(list_item(list)) == Some(
            TvModel::List(crate::transport::list_model(list@)),
        ),
        crate::transport::websocket::parsers::helpers::json_tv(dict_item(dict)) == Some(
            TvModel::Dict(crate::transport::dict_model(dict)),
        ),
        list_item(list) is Array,
        list_item(list)->Array_0.len() == list@.len(),
        dict_item(dict) is Object,
        dict_item(dict)->Object_0.dom() == dict@.dom(),
{
    crate::transport::websocket::round_trip::lemma_value_read_back(
        TvModel::List(crate::transport::list_model(list@)),
    );
    crate::transport::websocket::round_trip::lemma_value_read_back(
        TvModel::Dict(crate::transport::dict_model(dict)),
    );
    crate::transport::value_laws::lemma_value_is_written(
        TvModel::Dict(crate::transport::dict_model(dict)),
    );
    crate::transport::lemma_dict_model(dict);
}

/// HELLO, GOODBYE and ABORT messages: a code, and the details and the URI that they were made of.
pub proof fn lemma_session_messages_sent(details: Dict<TransportableValue>, uri: Uri)
    ensures
        crate::proto::tx_json(TxMessage::Hello { realm: uri, details }@) == JsonModel::Array(
            seq![JsonModel::Number(Some(1)), JsonModel::Str(uri@), dict_item(details)],
        ),
        crate::proto::tx_json(TxMessage::Goodbye { details, reason: uri }@) == JsonModel::Array(
            seq![JsonModel::Number(Some(6)), dict_item(details), JsonModel::Str(uri@)],
        ),
        crate::proto::tx_json(TxMessage::Abort { details, reason: uri }@) == JsonModel::Array(
            seq![JsonModel::Number(Some(3)), dict_item(details), JsonModel::Str(uri@)],
        ),
{
}

/// Requests that name a topic or a procedure, or what was subscribed to or registered: a code, the
/// ID of the request, and what they were made of.
pub proof fn lemma_requests_sent(
    request: Id<SessionScope>,
    options: Dict<TransportableValue>,
    uri: Uri,
    id: Id<RouterScope>,
)
    ensures
        crate::proto::tx_json(TxMessage::Subscribe { request, options, topic: uri }@)
            == JsonModel::Array(
            seq![
                JsonModel::Number(Some(32)),
                JsonModel::Number(Some(request@)),
                dict_item(options),
                JsonModel::Str(uri@),
            ],
        ),
        crate::proto::tx_json(TxMessage::Unsubscribe { request, subscription: id }@)
            == JsonModel::Array(
            seq![
                JsonModel::Number(Some(34)),
                JsonModel::Number(Some(request@)),
                JsonModel::Number(Some(id@)),
            ],
        ),
        crate::proto::tx_json(TxMessage::Register { request, options, procedure: uri }@)
            == JsonModel::Array(
            seq![
                JsonModel::Number(Some(64)),
                JsonModel::Number(Some(request@)),
                dict_item(options),
                JsonModel::Str(uri@),
            ],
        ),
        crate::proto::tx_json(TxMessage::Unregister { request, registration: id }@)
            == JsonModel::Array(
            seq![
                JsonModel::Number(Some(66)),
                JsonModel::Number(Some(request@)),
                JsonModel::Number(Some(id@)),
            ],
        ),
{
}

/// Messages that carry data: a code, what they were made of, and then the data. Data that is there
/// but empty is sent all the same.
pub proof fn lemma_data_sent(
    request_type: u64,
    request: Id<SessionScope>,
    invocation: Id<RouterScope>,
    options: Dict<TransportableValue>,
    uri: Uri,
    arguments: Option<Vec<TransportableValue>>,
    arguments_kw: Option<Dict<TransportableValue>>,
)
    ensures
        ({
            let publish = TxMessage::Publish {
                request,
                options,
                topic: uri,
                arguments,
                arguments_kw,
            };
            &&& crate::proto::tx_json(publish@) matches JsonModel::Array(items)
            &&& followed_by(
                items,
                seq![
                    JsonModel::Number(Some(16)),
                    JsonModel::Number(Some(request@)),
                    dict_item(options),
                    JsonModel::Str(uri@),
                ],
                arguments,
                arguments_kw,
            )
        }),
        ({
            let call = TxMessage::Call {
                request,
                options,
                procedure: uri,
                arguments,
                arguments_kw,
            };
            &&& crate::proto::tx_json(call@) matches JsonModel::Array(items)
            &&& followed_by(
                items,
                seq![
                    JsonModel::Number(Some(48)),
                    JsonModel::Number(Some(request@)),
                    dict_item(options),
                    JsonModel::Str(uri@),
                ],
                arguments,
                arguments_kw,
            )
        }),
        ({
            let result = TxMessage::Yield { request: invocation, options, arguments, arguments_kw };
            &&& crate::proto::tx_json(result@) matches JsonModel::Array(items)
            &&& followed_by(
                items,
                seq![
                    JsonModel::Number(Some(70)),
                    JsonModel::Number(Some(invocation@)),
                    dict_item(options),
                ],
                arguments,
                arguments_kw,
            )
        }),
        ({
            let error = TxMessage::Error {
                request_type,
                request,
                details: options,
                error: uri,
                arguments,
                arguments_kw,
            };
            &&& crate::proto::tx_json(error@) matches JsonModel::Array(items)
            &&& followed_by(
                items,
                seq![
                    JsonModel::Number(Some(8)),
                    JsonModel::Number(Some(request_type)),
                    JsonModel::Number(Some(request@)),
                    dict_item(options),
                    JsonModel::Str(uri@),
                ],
                arguments,
                arguments_kw,
            )
        }),
{
    let publish = TxMessage::Publish { request, options, topic: uri, arguments, arguments_kw };
    assert(crate::proto::tx_items(publish@).take(4) =~= seq![
        JsonModel::Number(Some(16)),
        JsonModel::Number(Some(request@)),
        dict_item(options),
        JsonModel::Str(uri@),
    ]);
    let call = TxMessage::Call { request, options, procedure: uri, arguments, arguments_kw };
    assert(crate::proto::tx_items(call@).take(4) =~= seq![
        JsonModel::Number(Some(48)),
        JsonModel::Number(Some(request@)),
        dict_item(options),
        JsonModel::Str(uri@),
    ]);
    let result = TxMessage::Yield { request: invocation, options, arguments, arguments_kw };
    assert(crate::proto::tx_items(result@).take(3) =~= seq![
        JsonModel::Number(Some(70)),
        JsonModel::Number(Some(invocation@)),
        dict_item(options),
    ]);
    let error = TxMessage::Error {
        request_type,
        request,
        details: options,
        error: uri,
        arguments,
        arguments_kw,
    };
    assert(crate::proto::tx_items(error@).take(5) =~= seq![
        JsonModel::Number(Some(8)),
        JsonModel::Number(Some(request_type)),
        JsonModel::Number(Some(request@)),
        dict_item(options),
        JsonModel::Str(uri@),
    ]);
}

/// The code that a message tells of itself is the first item that it is sent with.
pub proof fn lemma_told_code_is_sent(message: TxMessage)
    ensures
        crate::proto::tx_json(message@) matches JsonModel::Array(items) && items.len() > 0
            && items[0] == JsonModel::Number(Some(crate::proto::tx_code(message@))),
{
}

} // verus!
