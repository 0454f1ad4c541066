//! What requests look like when they are sent, and what is given out of events.

use vstd::prelude::*;

use crate::client::ops::publish::PublishModel;
use crate::client::ops::{SendModel, SendStage, SendStepModel, Watch};
use crate::client::Broadcast;
use crate::id::Id;
use crate::json::JsonModel;
use crate::proto::rx;
use crate::proto::{TxMessage, TxModel};
use crate::transport::TvModel;

verus! {

/// The message is about to be sent: it waits for the sink to become ready, and has this JSON form.
pub open spec fn sends(send: SendModel, json: JsonModel) -> bool {
    &&& send.stage is WaitReady
    &&& send.message matches Some(message)
    &&& crate::proto::tx_json(message) == json
}

/// No options and no details are written as an empty object.
pub proof fn lemma_nothing_is_written_as_empty_object()
    ensures
        crate::transport::value_json::tv_json(
            TvModel::Dict(Map::<Seq<char>, TvModel>::empty()),
        ) == JsonModel::Object(Map::<Seq<char>, JsonModel>::empty()),
{
    let dict = TvModel::Dict(Map::<Seq<char>, TvModel>::empty());
    crate::transport::value_laws::lemma_value_is_written(dict);
    assert(crate::transport::value_json::members_json(dict) =~= Map::<
        Seq<char>,
        JsonModel,
    >::empty());
}

/// For every broadcast, the PUBLISH message that is sent consists of its code, the ID of the request,
/// an empty object of options, the topic, the list of the positional values and the object of the
/// keyword values, both also where they are empty. The broadcast is then done with, and the others
/// are left.
pub proof fn lemma_broadcast_is_sent(
    op: PublishModel,
    broadcast: Broadcast,
    watch: Watch,
    request: u64,
)
    requires
        op.stage is WaitReady,
        op.messages.len() > 0,
        op.messages[0] == broadcast@,
        watch.state is Established,
        !watch.timed_out,
    ensures
        ({
            let (next, step) = crate::client::ops::publish::publish_step(
                op,
                watch,
                Ok(()),
                request,
            );
            &&& step matches SendStepModel::Send(message)
            &&& crate::proto::tx_json(message) == JsonModel::Array(
                seq![
                    JsonModel::Number(Some(16)),
                    JsonModel::Number(Some(request)),
                    JsonModel::Object(Map::empty()),
                    JsonModel::Str(op.topic),
                    crate::transport::websocket::wire::list_item(broadcast.arguments),
                    crate::transport::websocket::wire::dict_item(broadcast.arguments_kw),
                ],
            )
            &&& next.topic == op.topic
            &&& next.messages == op.messages.skip(1)
            &&& next.stage is Sending
        }),
{
    lemma_nothing_is_written_as_empty_object();
    let step = crate::client::ops::publish::publish_step(op, watch, Ok(()), request).1;
    if let SendStepModel::Send(message) = step {
        assert(crate::proto::tx_items(message) =~= seq![
            JsonModel::Number(Some(16)),
            JsonModel::Number(Some(request)),
            JsonModel::Object(Map::empty()),
            JsonModel::Str(op.topic),
            crate::transport::websocket::wire::list_item(broadcast.arguments),
            crate::transport::websocket::wire::dict_item(broadcast.arguments_kw),
        ]);
    }
}

/// The same with acknowledgement: the one option is that it is asked for.
pub proof fn lemma_acknowledged_broadcast_is_sent(
    topic: Seq<char>,
    request: u64,
    broadcast: Broadcast,
)
    ensures
        sends(
            crate::client::ops::publish::ack_send(topic, request, broadcast@),
            JsonModel::Array(
                seq![
                    JsonModel::Number(Some(16)),
                    JsonModel::Number(Some(request)),
                    JsonModel::Object(Map::empty().insert("acknowledge"@, JsonModel::Bool(true))),
                    JsonModel::Str(topic),
                    crate::transport::websocket::wire::list_item(broadcast.arguments),
                    crate::transport::websocket::wire::dict_item(broadcast.arguments_kw),
                ],
            ),
        ),
{
    let send = crate::client::ops::publish::ack_send(topic, request, broadcast@);
    let options = crate::client::ops::publish::ack_options();
    let dict = TvModel::Dict(options);
    crate::transport::value_laws::lemma_value_is_written(dict);
    crate::transport::value_laws::lemma_value_is_written(TvModel::Bool(true));
    assert(crate::transport::value_json::members_json(dict) =~= Map::empty().insert(
        "acknowledge"@,
        JsonModel::Bool(true),
    ));
    if let Some(message) = send.message {
        assert(crate::proto::tx_items(message) =~= seq![
            JsonModel::Number(Some(16)),
            JsonModel::Number(Some(request)),
            JsonModel::Object(Map::empty().insert("acknowledge"@, JsonModel::Bool(true))),
            JsonModel::Str(topic),
            crate::transport::websocket::wire::list_item(broadcast.arguments),
            crate::transport::websocket::wire::dict_item(broadcast.arguments_kw),
        ]);
    }
}

/// Both kinds of values of a broadcast are read back from the PUBLISH message that is sent.
pub proof fn lemma_broadcast_is_read_back(
    op: PublishModel,
    broadcast: Broadcast,
    watch: Watch,
    request: u64,
)
    requires
        op.stage is WaitReady,
        op.messages.len() > 0,
        op.messages[0] == broadcast@,
        watch.state is Established,
        !watch.timed_out,
    ensures
        ({
            let step = crate::client::ops::publish::publish_step(op, watch, Ok(()), request).1;
            &&& step matches SendStepModel::Send(message)
            &&& crate::proto::tx_json(message) matches JsonModel::Array(items)
            &&& items.len() == 6
            &&& crate::transport::websocket::parsers::helpers::json_tv(items[4]) == Some(
                TvModel::List(crate::transport::list_model(broadcast.arguments@)),
            )
            &&& crate::transport::websocket::parsers::helpers::json_tv(items[5]) == Some(
                TvModel::Dict(crate::transport::dict_model(broadcast.arguments_kw)),
            )
        }),
{
    lemma_broadcast_is_sent(op, broadcast, watch, request);
    crate::transport::websocket::wire::lemma_items_read_back(
        broadcast.arguments,
        broadcast.arguments_kw,
    );
}

/// Broadcasts are told of one by one, in their order, each with its positional and its keyword
/// values.
pub proof fn lemma_broadcasts_are_told(broadcasts: Seq<Broadcast>)
    ensures
        ({
            let told = crate::client::ops::publish::broadcasts_model(broadcasts);
            &&& told.len() == broadcasts.len()
            &&& forall|i: int|
                0 <= i < told.len() ==> (#[trigger] told[i]).arguments
                    == crate::transport::list_model(broadcasts[i].arguments@)
                    && told[i].arguments_kw == crate::transport::dict_model(
                    broadcasts[i].arguments_kw,
                )
        }),
{
}

/// Publishing begins with waiting for the sink if there is a broadcast, and with flushing it
/// otherwise.
pub proof fn lemma_publishing_begins(messages: Seq<crate::client::BroadcastModel>)
    ensures
        messages.len() > 0 ==> crate::client::ops::publish::next_stage(messages) is WaitReady
            && crate::client::ops::publish::next_step(messages) is WaitReady,
        messages.len() == 0 ==> crate::client::ops::publish::next_stage(messages) is Flushing
            && crate::client::ops::publish::next_step(messages) is Flush,
{
}

/// The SUBSCRIBE message names the topic, and the UNSUBSCRIBE message the subscription; both carry
/// the ID of the request. The GOODBYE message gives the reason.
pub proof fn lemma_requests_are_sent(
    topic: Seq<char>,
    request: u64,
    subscription: u64,
    reason: Seq<char>,
)
    ensures
        sends(
            crate::client::ops::subscribe::subscribe_send(topic, request),
            JsonModel::Array(
                seq![
                    JsonModel::Number(Some(32)),
                    JsonModel::Number(Some(request)),
                    JsonModel::Object(Map::empty()),
                    JsonModel::Str(topic),
                ],
            ),
        ),
        sends(
            crate::client::ops::unsubscribe::unsubscribe_send(subscription, request),
            JsonModel::Array(
                seq![
                    JsonModel::Number(Some(34)),
                    JsonModel::Number(Some(request)),
                    JsonModel::Number(Some(subscription)),
                ],
            ),
        ),
        sends(
            crate::client::ops::close::goodbye_send(reason),
            JsonModel::Array(
                seq![
                    JsonModel::Number(Some(6)),
                    JsonModel::Object(Map::empty()),
                    JsonModel::Str(reason),
                ],
            ),
        ),
{
    lemma_nothing_is_written_as_empty_object();
}

/// A violation of the protocol is answered with ABORT, and the end of a session with GOODBYE, each
/// with the reason that WAMP gives for it.
pub proof fn lemma_answers_of_the_listener()
    ensures
        crate::proto::tx_json(crate::client::message_listener::violation_abort())
            == JsonModel::Array(
            seq![
                JsonModel::Number(Some(3)),
                JsonModel::Object(Map::empty()),
                JsonModel::Str("wamp.error.protocol_violation"@),
            ],
        ),
        crate::proto::tx_json(crate::client::message_listener::goodbye_reply())
            == JsonModel::Array(
            seq![
                JsonModel::Number(Some(6)),
                JsonModel::Object(Map::empty()),
                JsonModel::Str("wamp.error.goodbye_and_out"@),
            ],
        ),
{
    lemma_nothing_is_written_as_empty_object();
}

/// A HELLO message names the realm, and tells the router of the four roles that the client takes and
/// of nothing else but the user agent, if there is one.
pub proof fn lemma_hello_is_sent(realm: Seq<char>, agent: Option<Seq<char>>)
    ensures
        ({
            let hello = TxModel::Hello {
                realm,
                details: crate::client::ops::initialize::hello_details(agent),
            };
            &&& crate::proto::tx_json(hello) matches JsonModel::Array(items)
            &&& items.len() == 3
            &&& items[0] == JsonModel::Number(Some(1))
            &&& items[1] == JsonModel::Str(realm)
            &&& items[2] matches JsonModel::Object(details)
            &&& details.contains_key("roles"@)
            &&& details["roles"@] matches JsonModel::Object(roles)
            &&& forall|key: Seq<char>| #[trigger]
                roles.contains_key(key) <==> key == "caller"@ || key == "callee"@ || key
                    == "subscriber"@ || key == "publisher"@
            &&& forall|key: Seq<char>| #[trigger]
                roles.contains_key(key) ==> roles[key] == JsonModel::Object(
                    Map::<Seq<char>, JsonModel>::empty(),
                )
            &&& forall|key: Seq<char>| #[trigger]
                details.contains_key(key) <==> key == "roles"@ || (key == "agent"@ && agent is Some)
            &&& agent matches Some(text) ==> details["agent"@] == JsonModel::Str(text)
        }),
{
    let told = crate::client::ops::initialize::hello_details(agent);
    let roles = crate::client::ops::initialize::client_roles();
    lemma_nothing_is_written_as_empty_object();
    crate::transport::value_laws::lemma_value_is_written(TvModel::Dict(told));
    crate::transport::value_laws::lemma_value_is_written(TvModel::Dict(roles));
    reveal_strlit("roles");
    reveal_strlit("agent");
    assert("roles"@[0] != "agent"@[0]);
    assert(told["roles"@] == TvModel::Dict(roles));
    if let Some(text) = agent {
        crate::transport::value_laws::lemma_value_is_written(TvModel::Str(text));
    }
}

/// What the stream of a subscription gives out of an event has exactly the positional values and
/// exactly the keyword values of the event; what the event does not bring is empty.
pub proof fn lemma_event_is_given_out(event: rx::Event, broadcast: Broadcast)
    requires
        broadcast@ == crate::client::ops::subscribe::event_broadcast(event),
    ensures
        match event.arguments {
            Some(list) => {
                &&& broadcast.arguments@.len() == list@.len()
                &&& forall|i: int|
                    0 <= i < list@.len() ==> (#[trigger] broadcast.arguments@[i])@ == list@[i]@
            },
            None => broadcast.arguments@.len() == 0,
        },
        match event.arguments_kw {
            Some(dict) => {
                &&& broadcast.arguments_kw@.dom() == dict@.dom()
                &&& forall|key: Seq<char>| #[trigger]
                    dict@.contains_key(key) ==> broadcast.arguments_kw@[key]@ == dict@[key]@
            },
            None => broadcast.arguments_kw@.dom() == Set::<Seq<char>>::empty(),
        },
{
    let told = broadcast@;
    crate::transport::lemma_dict_model(broadcast.arguments_kw);
    assert(told.arguments.len() == broadcast.arguments@.len());
    match event.arguments {
        Some(list) => {
            assert forall|i: int| 0 <= i < list@.len() implies (
            #[trigger] broadcast.arguments@[i])@ == list@[i]@ by {
                assert(told.arguments[i] == broadcast.arguments@[i]@);
                assert(crate::transport::list_model(list@)[i] == list@[i]@);
            }
        },
        None => {},
    }
    match event.arguments_kw {
        Some(dict) => {
            crate::transport::lemma_dict_model(dict);
            assert forall|key: Seq<char>| #[trigger] dict@.contains_key(
                key,
            ) implies broadcast.arguments_kw@[key]@ == dict@[key]@ by {
                assert(crate::transport::dict_model(dict).contains_key(key));
                assert(crate::transport::dict_model(broadcast.arguments_kw).contains_key(key));
            }
        },
        None => {},
    }
}

/// What is unsubscribed from is the subscription of the stream.
pub proof fn lemma_stream_names_its_subscription(
    stream: crate::client::ops::subscribe::SubscriptionStreamImpl,
)
    ensures
        crate::client::SubscriptionStream::subscription_model(&stream) == stream.subscription_id@,
{
}

} // verus!
