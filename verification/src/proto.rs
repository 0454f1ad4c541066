//! Contains protocol-level details.
//!
//! If you aren't defining your own transport type, you shouldn't need to worry about this module.

use vstd::prelude::*;

use crate::id::{Id, RouterScope, SessionScope};
use crate::json::{Json, JsonModel};
use crate::transport::value_json::{dict_to_json, list_to_json};
use crate::transport::{TransportableValue, TvModel};
use crate::uri::Uri;

pub mod msg_code;
pub mod rx;

verus! {

/// A string-to-value mapping in a message.
pub type Dict = crate::dict::Dict<TransportableValue>;

/// A list of values in a message.
pub type List = Vec<TransportableValue>;

/// A dictionary in which nothing is.
pub fn empty_dict() -> (dict: Dict)
    ensures
        crate::transport::dict_model(dict) == Map::<Seq<char>, TvModel>::empty(),
{
    let dict = Dict::new();
    proof {
        crate::transport::lemma_dict_model_empty(dict);
    }
    dict
}

/// What a message to be sent says, apart from how it is stored.
#[verifier::ext_equal]
pub enum TxModel {
    /// See [`TxMessage::Hello`].
    Hello { realm: Seq<char>, details: Map<Seq<char>, TvModel> },
    /// See [`TxMessage::Goodbye`].
    Goodbye { details: Map<Seq<char>, TvModel>, reason: Seq<char> },
    /// See [`TxMessage::Error`].
    Error {
        request_type: u64,
        request: u64,
        details: Map<Seq<char>, TvModel>,
        error: Seq<char>,
        arguments: Option<Seq<TvModel>>,
        arguments_kw: Option<Map<Seq<char>, TvModel>>,
    },
    /// See [`TxMessage::Abort`].
    Abort { details: Map<Seq<char>, TvModel>, reason: Seq<char> },
    /// See [`TxMessage::Publish`].
    Publish {
        request: u64,
        options: Map<Seq<char>, TvModel>,
        topic: Seq<char>,
        arguments: Option<Seq<TvModel>>,
        arguments_kw: Option<Map<Seq<char>, TvModel>>,
    },
    /// See [`TxMessage::Subscribe`].
    Subscribe { request: u64, options: Map<Seq<char>, TvModel>, topic: Seq<char> },
    /// See [`TxMessage::Unsubscribe`].
    Unsubscribe { request: u64, subscription: u64 },
    /// See [`TxMessage::Call`].
    Call {
        request: u64,
        options: Map<Seq<char>, TvModel>,
        procedure: Seq<char>,
        arguments: Option<Seq<TvModel>>,
        arguments_kw: Option<Map<Seq<char>, TvModel>>,
    },
    /// See [`TxMessage::Register`].
    Register { request: u64, options: Map<Seq<char>, TvModel>, procedure: Seq<char> },
    /// See [`TxMessage::Unregister`].
    Unregister { request: u64, registration: u64 },
    /// See [`TxMessage::Yield`].
    Yield {
        request: u64,
        options: Map<Seq<char>, TvModel>,
        arguments: Option<Seq<TvModel>>,
        arguments_kw: Option<Map<Seq<char>, TvModel>>,
    },
}

/// The various types of messages which can be sent by the client as part of WAMP. For more
/// details, see [the WAMP protocol].
///
/// [the WAMP protocol]: http://wamp-proto.org
#[allow(inconsistent_fields)]
#[derive(Debug)]
pub enum TxMessage {
    /// Session management; used by all types of peers.
    Hello {
        /// The realm to connect to.
        realm: Uri,
        /// Describes this peer's capabilities. Could also include a user-agent string.
        details: Dict,
    },
    /// Session management; used by all types of peers.
    Goodbye {
        /// Allows providing optional, additional information.
        details: Dict,
        /// A somewhat known URI describing why the session is being closed.
        reason: Uri,
    },
    /// Message type used by all roles to indicate a problem with a request.
    Error {
        /// The message code for the type of message that caused the error.
        request_type: u64,
        /// The ID of the request that caused the error.
        request: Id<SessionScope>,
        /// Optional details describing the error.
        details: Dict,
        /// A somewhat known URI describing the error.
        error: Uri,
        /// A list of positional data.
        arguments: Option<List>,
        /// A dictionary of key-value data.
        arguments_kw: Option<Dict>,
    },
    /// Sent in response to a protocol error.
    Abort {
        /// Allow providing optional, additional information.
        details: Dict,
        /// A somewhat known URI describing why the session is being aborted.
        reason: Uri,
    },
    /// Sent by publishers to brokers when they have a message to send.
    Publish {
        /// A request ID.
        request: Id<SessionScope>,
        /// Optional additional parameters for the publication.
        options: Dict,
        /// The topic to publish to.
        topic: Uri,
        /// An optional list of positional data.
        arguments: Option<List>,
        /// An optional dictionary of key-value data.
        arguments_kw: Option<Dict>,
    },
    /// Sent by subscribers to brokers when they wish to receive publications sent to a
    /// particular topic.
    Subscribe {
        /// A request ID.
        request: Id<SessionScope>,
        /// Optional additional parameters for the requested subscription.
        options: Dict,
        /// The topic to subscribe to.
        topic: Uri,
    },
    /// Sent by subscribers to brokers when they no longer wish to receive publications sent
    /// to a particular topic.
    Unsubscribe {
        /// A request ID.
        request: Id<SessionScope>,
        /// The ID of the subscription to cancel.
        subscription: Id<RouterScope>,
    },
    /// Sent by callers to dealers when they wish to invoke an RPC.
    Call {
        /// A request ID.
        request: Id<SessionScope>,
        /// Optional additional parameters for the call.
        options: Dict,
        /// The procedure to invoke.
        procedure: Uri,
        /// The positional arguments to the procedure.
        arguments: Option<List>,
        /// The key-value arguments to the procedure.
        arguments_kw: Option<Dict>,
    },
    /// Sent by callees to dealers to register a new RPC.
    Register {
        /// A request ID.
        request: Id<SessionScope>,
        /// Optional additional parameters for the registration.
        options: Dict,
        /// The procedure to register.
        procedure: Uri,
    },
    /// Sent by callees to dealers to remove an existing RPC registration.
    Unregister {
        /// A request ID.
        request: Id<SessionScope>,
        /// The ID of the registration to remove.
        registration: Id<RouterScope>,
    },
    /// Sent by callees to dealers to indicate that an RPC is finished.
    Yield {
        /// The request ID from the invocation.
        request: Id<RouterScope>,
        /// Optional additional parameters for the yielded data.
        options: Dict,
        /// Positional returned data.
        arguments: Option<List>,
        /// Key-value returned data.
        arguments_kw: Option<Dict>,
    },
}

impl View for TxMessage {
    type V = TxModel;

    open spec fn view(&self) -> TxModel {
        match self {
            TxMessage::Hello { realm, details } => TxModel::Hello {
                realm: realm@,
                details: crate::transport::dict_model(*details),
            },
            TxMessage::Goodbye { details, reason } => TxModel::Goodbye {
                details: crate::transport::dict_model(*details),
                reason: reason@,
            },
            TxMessage::Error {
                request_type,
                request,
                details,
                error,
                arguments,
                arguments_kw,
            } => TxModel::Error {
                request_type: *request_type,
                request: request@,
                details: crate::transport::dict_model(*details),
                error: error@,
                arguments: crate::transport::arguments_model(*arguments),
                arguments_kw: crate::transport::arguments_kw_model(*arguments_kw),
            },
            TxMessage::Abort { details, reason } => TxModel::Abort {
                details: crate::transport::dict_model(*details),
                reason: reason@,
            },
            TxMessage::Publish {
                request,
                options,
                topic,
                arguments,
                arguments_kw,
            } => TxModel::Publish {
                request: request@,
                options: crate::transport::dict_model(*options),
                topic: topic@,
                arguments: crate::transport::arguments_model(*arguments),
                arguments_kw: crate::transport::arguments_kw_model(*arguments_kw),
            },
            TxMessage::Subscribe { request, options, topic } => TxModel::Subscribe {
                request: request@,
                options: crate::transport::dict_model(*options),
                topic: topic@,
            },
            TxMessage::Unsubscribe { request, subscription } => TxModel::Unsubscribe {
                request: request@,
                subscription: subscription@,
            },
            TxMessage::Call {
                request,
                options,
                procedure,
                arguments,
                arguments_kw,
            } => TxModel::Call {
                request: request@,
                options: crate::transport::dict_model(*options),
                procedure: procedure@,
                arguments: crate::transport::arguments_model(*arguments),
                arguments_kw: crate::transport::arguments_kw_model(*arguments_kw),
            },
            TxMessage::Register { request, options, procedure } => TxModel::Register {
                request: request@,
                options: crate::transport::dict_model(*options),
                procedure: procedure@,
            },
            TxMessage::Unregister { request, registration } => TxModel::Unregister {
                request: request@,
                registration: registration@,
            },
            TxMessage::Yield { request, options, arguments, arguments_kw } => TxModel::Yield {
                request: request@,
                options: crate::transport::dict_model(*options),
                arguments: crate::transport::arguments_model(*arguments),
                arguments_kw: crate::transport::arguments_kw_model(*arguments_kw),
            },
        }
    }
}

/// The message code of a message.
pub open spec fn tx_code(message: TxModel) -> u64 {
    match message {
        TxModel::Hello { .. } => msg_code::HELLO,
        TxModel::Goodbye { .. } => msg_code::GOODBYE,
        TxModel::Error { .. } => msg_code::ERROR,
        TxModel::Abort { .. } => msg_code::ABORT,
        TxModel::Publish { .. } => msg_code::PUBLISH,
        TxModel::Subscribe { .. } => msg_code::SUBSCRIBE,
        TxModel::Unsubscribe { .. } => msg_code::UNSUBSCRIBE,
        TxModel::Call { .. } => msg_code::CALL,
        TxModel::Register { .. } => msg_code::REGISTER,
        TxModel::Unregister { .. } => msg_code::UNREGISTER,
        TxModel::Yield { .. } => msg_code::YIELD,
    }
}

/// A number in a message.
pub open spec fn number_json(number: u64) -> JsonModel {
    JsonModel::Number(Some(number))
}

/// The items of a message followed by its positional data and then by its key-value data, as far
/// as it has them. Without positional data no key-value data is sent.
pub open spec fn with_arguments(
    items: Seq<JsonModel>,
    arguments: Option<Seq<TvModel>>,
    arguments_kw: Option<Map<Seq<char>, TvModel>>,
) -> Seq<JsonModel> {
    match arguments {
        None => items,
        Some(list) => {
            let items = items.push(
                crate::transport::value_json::tv_json(TvModel::List(list)),
            );
            match arguments_kw {
                None => items,
                Some(dict) => items.push(crate::transport::value_json::dict_json(dict)),
            }
        },
    }
}

/// The items of the JSON array that a message is sent as.
pub open spec fn tx_items(message: TxModel) -> Seq<JsonModel> {
    let code = number_json(tx_code(message));
    match message {
        TxModel::Hello { realm, details } => seq![
            code,
            JsonModel::Str(realm),
            crate::transport::value_json::dict_json(details),
        ],
        TxModel::Goodbye { details, reason } => seq![
            code,
            crate::transport::value_json::dict_json(details),
            JsonModel::Str(reason),
        ],
        TxModel::Error {
            request_type,
            request,
            details,
            error,
            arguments,
            arguments_kw,
        } => with_arguments(
            seq![
                code,
                number_json(request_type),
                number_json(request),
                crate::transport::value_json::dict_json(details),
                JsonModel::Str(error),
            ],
            arguments,
            arguments_kw,
        ),
        TxModel::Abort { details, reason } => seq![
            code,
            crate::transport::value_json::dict_json(details),
            JsonModel::Str(reason),
        ],
        TxModel::Publish { request, options, topic, arguments, arguments_kw } => with_arguments(
            seq![
                code,
                number_json(request),
                crate::transport::value_json::dict_json(options),
                JsonModel::Str(topic),
            ],
            arguments,
            arguments_kw,
        ),
        TxModel::Subscribe { request, options, topic } => seq![
            code,
            number_json(request),
            crate::transport::value_json::dict_json(options),
            JsonModel::Str(topic),
        ],
        TxModel::Unsubscribe { request, subscription } => seq![
            code,
            number_json(request),
            number_json(subscription),
        ],
        TxModel::Call { request, options, procedure, arguments, arguments_kw } => with_arguments(
            seq![
                code,
                number_json(request),
                crate::transport::value_json::dict_json(options),
                JsonModel::Str(procedure),
            ],
            arguments,
            arguments_kw,
        ),
        TxModel::Register { request, options, procedure } => seq![
            code,
            number_json(request),
            crate::transport::value_json::dict_json(options),
            JsonModel::Str(procedure),
        ],
        TxModel::Unregister { request, registration } => seq![
            code,
            number_json(request),
            number_json(registration),
        ],
        TxModel::Yield { request, options, arguments, arguments_kw } => with_arguments(
            seq![code, number_json(request), crate::transport::value_json::dict_json(options)],
            arguments,
            arguments_kw,
        ),
    }
}

/// The JSON form of a message.
pub open spec fn tx_json(message: TxModel) -> JsonModel {
    JsonModel::Array(tx_items(message))
}

fn number_item(number: u64) -> (json: Json)
    ensures
        json@ == number_json(number),
{
    Json::Number(Some(number))
}

fn push_arguments(items: &mut Vec<Json>, arguments: &Option<List>, arguments_kw: &Option<Dict>)
    ensures
        crate::json::array_model(final(items)@) == with_arguments(
            crate::json::array_model(old(items)@),
            crate::transport::arguments_model(*arguments),
            crate::transport::arguments_kw_model(*arguments_kw),
        ),
{
    broadcast use crate::json::lemma_array_model_push;

    if let Some(list) = arguments {
        items.push(list_to_json(list));
        if let Some(dict) = arguments_kw {
            items.push(dict_to_json(dict));
        }
    }
}

impl TxMessage {
    /// Determines the message code for this message.
    pub fn get_message_code(&self) -> (code: u64)
        ensures
            code == tx_code(self@),
    {
        match self {
            TxMessage::Hello { .. } => msg_code::HELLO,
            TxMessage::Goodbye { .. } => msg_code::GOODBYE,
            TxMessage::Error { .. } => msg_code::ERROR,
            TxMessage::Abort { .. } => msg_code::ABORT,
            TxMessage::Publish { .. } => msg_code::PUBLISH,
            TxMessage::Subscribe { .. } => msg_code::SUBSCRIBE,
            TxMessage::Unsubscribe { .. } => msg_code::UNSUBSCRIBE,
            TxMessage::Call { .. } => msg_code::CALL,
            TxMessage::Register { .. } => msg_code::REGISTER,
            TxMessage::Unregister { .. } => msg_code::UNREGISTER,
            TxMessage::Yield { .. } => msg_code::YIELD,
        }
    }

    /// Converts this message to a JSON representation.
    pub fn to_json(&self) -> (json: Json)
        ensures
            json@ == tx_json(self@),
    {
        broadcast use {crate::json::lemma_array_model_push, crate::json::lemma_array_model_empty};

        let mut items: Vec<Json> = Vec::new();
        items.push(number_item(self.get_message_code()));
        match self {
            TxMessage::Hello { realm, details } => {
                items.push(realm.to_json());
                items.push(dict_to_json(details));
            },
            TxMessage::Goodbye { details, reason } => {
                items.push(dict_to_json(details));
                items.push(reason.to_json());
            },
            TxMessage::Error { request_type, request, details, error, arguments, arguments_kw } => {
                items.push(number_item(*request_type));
                items.push(request.to_json());
                items.push(dict_to_json(details));
                items.push(error.to_json());
                push_arguments(&mut items, arguments, arguments_kw);
            },
            TxMessage::Abort { details, reason } => {
                items.push(dict_to_json(details));
                items.push(reason.to_json());
            },
            TxMessage::Publish { request, options, topic, arguments, arguments_kw } => {
                items.push(request.to_json());
                items.push(dict_to_json(options));
                items.push(topic.to_json());
                push_arguments(&mut items, arguments, arguments_kw);
            },
            TxMessage::Subscribe { request, options, topic } => {
                items.push(request.to_json());
                items.push(dict_to_json(options));
                items.push(topic.to_json());
            },
            TxMessage::Unsubscribe { request, subscription } => {
                items.push(request.to_json());
                items.push(subscription.to_json());
            },
            TxMessage::Call { request, options, procedure, arguments, arguments_kw } => {
                items.push(request.to_json());
                items.push(dict_to_json(options));
                items.push(procedure.to_json());
                push_arguments(&mut items, arguments, arguments_kw);
            },
            TxMessage::Register { request, options, procedure } => {
                items.push(request.to_json());
                items.push(dict_to_json(options));
                items.push(procedure.to_json());
            },
            TxMessage::Unregister { request, registration } => {
                items.push(request.to_json());
                items.push(registration.to_json());
            },
            TxMessage::Yield { request, options, arguments, arguments_kw } => {
                items.push(request.to_json());
                items.push(dict_to_json(options));
                push_arguments(&mut items, arguments, arguments_kw);
            },
        }
        assert(crate::json::array_model(items@) =~= tx_items(self@));
        Json::Array(items)
    }
}

} // verus!
