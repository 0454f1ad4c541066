//! What the client keeps track of, and what it requires of the router.

use vstd::prelude::*;

use crate::client::task_tracker::TrackerModel;
use crate::client::{Client, ClientModel, ClientState, RouterCapabilities};
use crate::error::WampErrorModel;
use crate::proto::rx;
use crate::transport::{TransportableValue, TvModel};

verus! {

/// After a subscription has been tracked, the signal that was handed in is the one that stops it,
/// and the only one; a signal that it had before comes out. All other subscriptions keep their
/// signals, and the message listener its own.
pub proof fn lemma_tracked_signal_stops_its_subscription(
    before: TrackerModel,
    after: TrackerModel,
    id: u64,
    sender: u64,
    displaced: Option<u64>,
)
    requires
        crate::client::task_tracker::subscription_tracked(before, after, id, sender, displaced),
    ensures
        after.subscriptions.contains((id, sender)),
        after.msg_listener == before.msg_listener,
        match displaced {
            Some(signal) => {
                &&& before.subscriptions.contains((id, signal))
                &&& after.subscriptions.len() == before.subscriptions.len()
            },
            None => {
                &&& forall|s: u64| !(#[trigger] before.subscriptions.contains((id, s)))
                &&& after.subscriptions.len() == before.subscriptions.len() + 1
            },
        },
        forall|other: u64, s: u64|
            other != id ==> (#[trigger] after.subscriptions.contains((other, s)) <==>
                before.subscriptions.contains((other, s))),
        crate::client::task_tracker::tracked_once(before.subscriptions) ==> forall|s: u64| #[trigger]
            after.subscriptions.contains((id, s)) ==> s == sender,
{
    let old_ones = before.subscriptions;
    let new_ones = after.subscriptions;
    match displaced {
        Some(signal) => {
            let i = choose|i: int| #[trigger]
                crate::client::task_tracker::tracks(old_ones, i, id) && signal == old_ones[i].1
                    && new_ones == old_ones.update(i, (id, sender));
            assert(new_ones[i] == (id, sender));
            assert(old_ones[i] == (id, signal));
            assert forall|other: u64, s: u64| other != id implies (
            #[trigger] new_ones.contains((other, s)) <==> old_ones.contains((other, s))) by {
                if new_ones.contains((other, s)) {
                    let j = choose|j: int| 0 <= j < new_ones.len() && new_ones[j] == (other, s);
                    assert(old_ones[j] == (other, s));
                }
                if old_ones.contains((other, s)) {
                    let j = choose|j: int| 0 <= j < old_ones.len() && old_ones[j] == (other, s);
                    assert(new_ones[j] == (other, s));
                }
            }
            if crate::client::task_tracker::tracked_once(old_ones) {
                assert forall|s: u64| #[trigger] new_ones.contains((id, s)) implies s == sender by {
                    let j = choose|j: int| 0 <= j < new_ones.len() && new_ones[j] == (id, s);
                    if j != i {
                        assert(old_ones[j].0 == old_ones[i].0);
                    }
                }
            }
        },
        None => {
            assert(new_ones[old_ones.len() as int] == (id, sender));
            assert forall|s: u64| !(#[trigger] old_ones.contains((id, s))) by {
                if old_ones.contains((id, s)) {
                    let j = choose|j: int| 0 <= j < old_ones.len() && old_ones[j] == (id, s);
                    assert(crate::client::task_tracker::tracks(old_ones, j, id));
                }
            }
            assert forall|other: u64, s: u64| other != id implies (
            #[trigger] new_ones.contains((other, s)) <==> old_ones.contains((other, s))) by {
                if new_ones.contains((other, s)) {
                    let j = choose|j: int| 0 <= j < new_ones.len() && new_ones[j] == (other, s);
                    assert(old_ones[j] == (other, s));
                }
                if old_ones.contains((other, s)) {
                    let j = choose|j: int| 0 <= j < old_ones.len() && old_ones[j] == (other, s);
                    assert(new_ones[j] == (other, s));
                }
            }
            assert forall|s: u64| #[trigger] new_ones.contains((id, s)) implies s == sender by {
                let j = choose|j: int| 0 <= j < new_ones.len() && new_ones[j] == (id, s);
                if j < old_ones.len() {
                    assert(crate::client::task_tracker::tracks(old_ones, j, id));
                }
            }
        },
    }
}

/// After a subscription has been dropped it is no longer tracked; the signal that comes out is the
/// one that it was tracked with. All others stay.
pub proof fn lemma_dropped_subscription_is_gone(
    before: TrackerModel,
    after: TrackerModel,
    id: u64,
    signal: Option<u64>,
)
    requires
        crate::client::task_tracker::subscription_dropped(before, after, id, signal),
        crate::client::task_tracker::tracked_once(before.subscriptions),
    ensures
        after.msg_listener == before.msg_listener,
        match signal {
            Some(s) => before.subscriptions.contains((id, s)),
            None => forall|s: u64| !(#[trigger] before.subscriptions.contains((id, s))),
        },
        forall|other: u64, s: u64| #[trigger]
            after.subscriptions.contains((other, s)) <==> other != id
                && before.subscriptions.contains((other, s)),
{
    let old_ones = before.subscriptions;
    let new_ones = after.subscriptions;
    match signal {
        Some(signal) => {
            let i = choose|i: int| #[trigger]
                crate::client::task_tracker::tracks(old_ones, i, id) && signal == old_ones[i].1
                    && new_ones == old_ones.remove(i);
            assert(old_ones[i] == (id, signal));
            assert forall|other: u64, s: u64| #[trigger] new_ones.contains((other, s)) <==> other
                != id && old_ones.contains((other, s)) by {
                if new_ones.contains((other, s)) {
                    let j = choose|j: int| 0 <= j < new_ones.len() && new_ones[j] == (other, s);
                    let k = if j < i {
                        j
                    } else {
                        j + 1
                    };
                    assert(old_ones[k] == (other, s));
                    assert(old_ones[k].0 != old_ones[i].0);
                }
                if other != id && old_ones.contains((other, s)) {
                    let j = choose|j: int| 0 <= j < old_ones.len() && old_ones[j] == (other, s);
                    let k = if j < i {
                        j
                    } else {
                        j - 1
                    };
                    assert(new_ones[k] == (other, s));
                }
            }
        },
        None => {
            assert forall|s: u64| !(#[trigger] old_ones.contains((id, s))) by {
                if old_ones.contains((id, s)) {
                    let j = choose|j: int| 0 <= j < old_ones.len() && old_ones[j] == (id, s);
                    assert(crate::client::task_tracker::tracks(old_ones, j, id));
                }
            }
        },
    }
}

/// When all subscriptions are stopped, the signal of each is given, and no other.
pub proof fn lemma_all_subscriptions_are_stopped(subscriptions: Seq<(u64, u64)>)
    ensures
        ({
            let signals = crate::client::task_tracker::signals(subscriptions);
            &&& signals.len() == subscriptions.len()
            &&& forall|i: int|
                0 <= i < subscriptions.len() ==> #[trigger] signals[i] == subscriptions[i].1
        }),
{
}

/// A request that needs a broker may begin in an established session with a router that is one. In
/// an established session with another router the role is missing, and in any other state the state
/// is invalid.
pub proof fn lemma_broker_is_required(state: ClientState)
    ensures
        match state {
            ClientState::Established { router_capabilities, .. } => {
                &&& router_capabilities.broker ==> crate::client::broker_refusal(state) is None
                &&& !router_capabilities.broker ==> crate::client::broker_refusal(state) == Some(
                    WampErrorModel::RouterSupportMissing("broker"@),
                )
            },
            _ => crate::client::broker_refusal(state) == Some(WampErrorModel::InvalidClientState),
        },
{
}

/// A router is a broker or a dealer if and only if the dictionary "roles" in the details of its
/// WELCOME message has that key.
pub proof fn lemma_capabilities_are_told(welcome: rx::Welcome)
    ensures
        ({
            let found = crate::client::capabilities(crate::transport::dict_model(welcome.details));
            let details = welcome.details@;
            if details.contains_key("roles"@) && (details["roles"@] is Dict) {
                let roles = details["roles"@]->Dict_0@;
                &&& found.broker <==> roles.contains_key("broker"@)
                &&& found.dealer <==> roles.contains_key("dealer"@)
            } else {
                !found.broker && !found.dealer
            }
        }),
{
    crate::transport::lemma_dict_model(welcome.details);
    let told = crate::transport::dict_model(welcome.details);
    let details = welcome.details@;
    if details.contains_key("roles"@) {
        assert(told.contains_key("roles"@));
        crate::transport::value_laws::lemma_value_is_told(details["roles"@]);
    } else {
        assert(!told.contains_key("roles"@));
    }
}

/// A WELCOME text whose details name the role "broker" leads to a session in which requests that
/// need a broker are not refused; one whose details do not leads to one in which they are.
pub proof fn lemma_welcome_text_decides_on_requests(
    session: u64,
    details: Map<Seq<char>, TvModel>,
    welcome: rx::Welcome,
)
    requires
        session <= 0x20_0000_0000_0000,
        crate::transport::websocket::parsers::parsed_message(
            crate::json::JsonModel::Array(
                seq![
                    crate::json::JsonModel::Number(Some(2)),
                    crate::json::JsonModel::Number(Some(session)),
                    crate::transport::value_json::tv_json(TvModel::Dict(details)),
                ],
            ),
        ) == Ok::<
            Option<rx::RxModel>,
            crate::transport::websocket::parsers::MessageParseError,
        >(Some(welcome@)),
    ensures
        welcome.session@ == session,
        crate::client::broker_refusal(
            ClientState::Established {
                session_id: welcome.session,
                router_capabilities: crate::client::capabilities(
                    crate::transport::dict_model(welcome.details),
                ),
            },
        ) is None <==> details.contains_key("roles"@) && (details["roles"@] matches TvModel::Dict(
            roles,
        ) && roles.contains_key("broker"@)),
{
    crate::transport::websocket::reading::lemma_welcome_read_back(session, details);
}

/// Closing sets the state to shutting down and forgets those who watched it and the subscriptions;
/// the message listener and what has been received stay.
pub proof fn lemma_shutting_down(client: ClientModel)
    ensures
        ({
            let closing = client.shutting_down();
            &&& closing.state.val is ShuttingDown
            &&& closing.state.waiting.len() == 0
            &&& closing.task_tracker.subscriptions.len() == 0
            &&& closing.task_tracker.msg_listener == client.task_tracker.msg_listener
            &&& closing.received == client.received
            &&& closing.panic_on_drop_while_open == client.panic_on_drop_while_open
        }),
        ({
            let stopped = client.without_subscriptions();
            &&& stopped.state == client.state
            &&& stopped.task_tracker.subscriptions.len() == 0
            &&& stopped.task_tracker.msg_listener == client.task_tracker.msg_listener
            &&& stopped.received == client.received
            &&& stopped.panic_on_drop_while_open == client.panic_on_drop_while_open
        }),
        ({
            let closed = client.transport_closed();
            &&& closed.state.val is TransportClosed
            &&& closed.state.waiting.len() == 0
            &&& closed.task_tracker == client.task_tracker
            &&& closed.received == client.received
            &&& closed.panic_on_drop_while_open == client.panic_on_drop_while_open
        }),
{
}

/// A client panics when it is dropped if and only if it was asked to and its transport is not
/// closed.
pub proof fn lemma_dropped_open_client_panics(client: ClientModel)
    ensures
        client.panics_when_dropped() <==> client.panic_on_drop_while_open && !(client.state.val
            is TransportClosed),
{
}

/// A client is told of by its parts.
pub proof fn lemma_client_is_told(client: Client)
    ensures
        client@.received == client.received@,
        client@.state == client.state@,
        client@.task_tracker == client.task_tracker@,
        client@.panic_on_drop_while_open == client.panic_on_drop_while_open,
{
}

} // verus!
