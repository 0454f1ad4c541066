//! What is read back of a message that was written.

use vstd::prelude::*;

use crate::id::MAX_ID_VAL;
use crate::json::JsonModel;
use crate::proto::rx::RxModel;
use crate::proto::TxModel;
use crate::transport::websocket::parsers::MessageParseError;
use crate::transport::TvModel;

verus! {

/// Every value is read back from its JSON form.
pub proof fn lemma_value_read_back(tv: TvModel)
    ensures
        crate::transport::websocket::parsers::helpers::json_tv(
            crate::transport::value_json::tv_json(tv),
        ) == Some(tv),
    decreases tv, 1int,
{
    match tv {
        TvModel::List(list) => {
            lemma_list_read_back(list);
        },
        TvModel::Dict(dict) => {
            let json = crate::transport::value_json::tv_json(tv);
            let back = crate::transport::websocket::parsers::helpers::members_tv(json);
            assert forall|key: Seq<char>|
                dict.contains_key(key) <==> #[trigger] back.contains_key(key) by {
                if dict.contains_key(key) {
                    lemma_value_read_back(tv->Dict_0[key]);
                }
            }
            assert forall|key: Seq<char>| #[trigger] back.contains_key(key) implies back[key]
                == dict[key] by {
                lemma_value_read_back(tv->Dict_0[key]);
            }
            assert(back =~= dict);
        },
        _ => {},
    }
}

/// Every value of a list is read back from its JSON form, in its place.
proof fn lemma_list_read_back(list: Seq<TvModel>)
    ensures
        crate::transport::websocket::parsers::helpers::items_tv(
            crate::transport::value_json::list_json(list),
        ) == list,
    decreases list, 0int,
{
    let items = crate::transport::value_json::list_json(list);
    if list.len() > 0 {
        lemma_list_read_back(list.drop_last());
        lemma_value_read_back(list.last());
        assert(items.drop_last() =~= crate::transport::value_json::list_json(list.drop_last()));
        assert(items.last() == crate::transport::value_json::tv_json(list.last()));
        assert(list.drop_last().push(list.last()) =~= list);
    } else {
        assert(crate::transport::websocket::parsers::helpers::items_tv(items) =~= list);
    }
}

/// The dictionary is read back from details.
proof fn lemma_dict_read_back(dict: Map<Seq<char>, TvModel>)
    ensures
        crate::transport::websocket::parsers::helpers::json_tv(
            crate::transport::value_json::dict_json(dict),
        ) == Some(TvModel::Dict(dict)),
{
    lemma_value_read_back(TvModel::Dict(dict));
}

/// An ABORT message with a URI in the relaxed form is read back as it was sent.
pub proof fn lemma_abort_read_back(details: Map<Seq<char>, TvModel>, reason: Seq<char>)
    requires
        crate::uri::is_relaxed_uri(reason),
    ensures
        crate::transport::websocket::parsers::parsed_message(
            crate::proto::tx_json(TxModel::Abort { details, reason }),
        ) == Ok::<Option<RxModel>, MessageParseError>(Some(RxModel::Abort { details, reason })),
{
    let all = crate::proto::tx_items(TxModel::Abort { details, reason });
    lemma_dict_read_back(details);
    assert(all.skip(1)[0] == all[1]);
    assert(all.skip(1)[1] == all[2]);
}

/// A GOODBYE message with a URI in the relaxed form is read back as it was sent.
pub proof fn lemma_goodbye_read_back(details: Map<Seq<char>, TvModel>, reason: Seq<char>)
    requires
        crate::uri::is_relaxed_uri(reason),
    ensures
        crate::transport::websocket::parsers::parsed_message(
            crate::proto::tx_json(TxModel::Goodbye { details, reason }),
        ) == Ok::<Option<RxModel>, MessageParseError>(Some(RxModel::Goodbye { details, reason })),
{
    let all = crate::proto::tx_items(TxModel::Goodbye { details, reason });
    lemma_dict_read_back(details);
    assert(all.skip(1)[0] == all[1]);
    assert(all.skip(1)[1] == all[2]);
}

/// An ERROR message with a URI in the relaxed form and a request ID in range is read back as it was
/// sent, but for key-value data without positional data: that is not sent.
pub proof fn lemma_error_read_back(
    request_type: u64,
    request: u64,
    details: Map<Seq<char>, TvModel>,
    error: Seq<char>,
    arguments: Option<Seq<TvModel>>,
    arguments_kw: Option<Map<Seq<char>, TvModel>>,
)
    requires
        crate::uri::is_relaxed_uri(error),
        request <= MAX_ID_VAL,
    ensures
        crate::transport::websocket::parsers::parsed_message(
            crate::proto::tx_json(
                TxModel::Error { request_type, request, details, error, arguments, arguments_kw },
            ),
        ) == Ok::<Option<RxModel>, MessageParseError>(
            Some(
                RxModel::Error {
                    request_type,
                    request,
                    details,
                    error,
                    arguments,
                    arguments_kw: if arguments is Some {
                        arguments_kw
                    } else {
                        None
                    },
                },
            ),
        ),
{
    let all = crate::proto::tx_items(
        TxModel::Error { request_type, request, details, error, arguments, arguments_kw },
    );
    let items = all.skip(1);
    lemma_dict_read_back(details);
    assert(items[0] == all[1]);
    assert(items[1] == all[2]);
    assert(items[2] == all[3]);
    assert(items[3] == all[4]);
    if arguments is Some {
        lemma_value_read_back(TvModel::List(arguments->Some_0));
        assert(items[4] == all[5]);
        if arguments_kw is Some {
            lemma_dict_read_back(arguments_kw->Some_0);
            assert(items[5] == all[6]);
        }
    }
}

/// The first item of every message is its code.
pub proof fn lemma_code_comes_first(message: TxModel)
    ensures
        crate::proto::tx_json(message) is Array,
        crate::proto::tx_items(message).len() > 0,
        crate::proto::tx_items(message)[0] == JsonModel::Number(
            Some(crate::proto::tx_code(message)),
        ),
{
}

/// A message that only a router makes use of is skipped, whatever it says.
pub proof fn lemma_requests_are_skipped(message: TxModel)
    requires
        !(message is Abort),
        !(message is Goodbye),
        !(message is Error),
    ensures
        crate::transport::websocket::parsers::parsed_message(crate::proto::tx_json(message))
            == Ok::<Option<RxModel>, MessageParseError>(None),
{
    lemma_code_comes_first(message);
}

/// Messages with the same code are of the same type.
pub proof fn lemma_codes_tell_types_apart(a: TxModel, b: TxModel)
    requires
        crate::proto::tx_code(a) == crate::proto::tx_code(b),
    ensures
        a is Hello <==> b is Hello,
        a is Goodbye <==> b is Goodbye,
        a is Error <==> b is Error,
        a is Abort <==> b is Abort,
        a is Publish <==> b is Publish,
        a is Subscribe <==> b is Subscribe,
        a is Unsubscribe <==> b is Unsubscribe,
        a is Call <==> b is Call,
        a is Register <==> b is Register,
        a is Unregister <==> b is Unregister,
        a is Yield <==> b is Yield,
{
}

/// Every number in a message is held as an integer from 0 to 2^64 - 1, so that it can be written.
pub proof fn lemma_tx_json_writable(message: TxModel)
    ensures
        crate::json::writable(crate::proto::tx_json(message)),
{
    let json = crate::proto::tx_json(message);
    assert forall|tv: TvModel| crate::json::writable(
        #[trigger] crate::transport::value_json::tv_json(tv),
    ) by {
        crate::transport::value_json::lemma_tv_json_writable(tv);
    }
    assert forall|i: int|
        json is Array && 0 <= i < json->Array_0.len() implies crate::json::writable(
        #[trigger] json->Array_0[i],
    ) by {}
    assert(crate::json::items_writable(json));
}

/// The IDs of a message are in range and its URIs are in the relaxed form.
pub open spec fn well_formed(message: RxModel) -> bool {
    match message {
        RxModel::Welcome { session, .. } => session <= MAX_ID_VAL,
        RxModel::Abort { reason, .. } => crate::uri::is_relaxed_uri(reason),
        RxModel::Goodbye { reason, .. } => crate::uri::is_relaxed_uri(reason),
        RxModel::Error { request, error, .. } => request <= MAX_ID_VAL
            && crate::uri::is_relaxed_uri(error),
        RxModel::Subscribed { request, subscription } => request <= MAX_ID_VAL && subscription
            <= MAX_ID_VAL,
        RxModel::Unsubscribed { request } => request <= MAX_ID_VAL,
        RxModel::Event { subscription, publication, .. } => subscription <= MAX_ID_VAL
            && publication <= MAX_ID_VAL,
        RxModel::Published { request, publication } => request <= MAX_ID_VAL && publication
            <= MAX_ID_VAL,
        RxModel::Registered { request, registration } => request <= MAX_ID_VAL && registration
            <= MAX_ID_VAL,
        RxModel::Unregistered { request } => request <= MAX_ID_VAL,
        RxModel::Invocation { request, registration, .. } => request <= MAX_ID_VAL && registration
            <= MAX_ID_VAL,
        RxModel::Result { request, .. } => request <= MAX_ID_VAL,
    }
}

/// Whatever JSON comes in, a message that is made of it has its IDs in range and its URIs in the
/// relaxed form.
pub proof fn lemma_parsed_is_well_formed(json: JsonModel)
    ensures
        crate::transport::websocket::parsers::parsed_message(json) matches Ok(Some(message))
            ==> well_formed(message),
{
}

} // verus!
