//! The client: its state, what it requires of the router, and what it does on request.

use vstd::prelude::*;

use crate::buffer::{BufferModel, MessageBuffer};
use crate::client::ops::close::CloseOp;
use crate::client::ops::publish::{PublishModel, PublishOp, PublishWithAckOp};
use crate::client::ops::subscribe::SubscribeOp;
use crate::client::ops::unsubscribe::UnsubscribeOp;
use crate::client::ops::SendStep;
use crate::client::task_tracker::{ClientTaskTracker, TrackerModel};
use crate::error::{WampError, WampErrorModel};
use crate::id::{GlobalScope, Id, RouterScope, SessionIdSource};
use crate::pollable::{Poll, PollableValue, PollableValueModel};
use crate::proto::Dict;
use crate::transport::{TransportableValue as TV, TvModel};
use crate::uri::Uri;

pub mod builder;
pub mod futures;
pub mod laws;
pub mod message_listener;
pub mod ops;
pub mod task_tracker;

verus! {

/// What a router is able to do.
#[derive(Debug, Clone, Copy, Eq, PartialEq, Structural)]
pub struct RouterCapabilities {
    /// The router passes published messages on to subscribers.
    pub broker: bool,
    /// The router passes calls on to callees.
    pub dealer: bool,
}

/// The capabilities that a router tells of in the details of its WELCOME message: the keys of the
/// dictionary "roles". Without such a dictionary it has none.
pub open spec fn capabilities(details: Map<Seq<char>, TvModel>) -> RouterCapabilities {
    if details.contains_key("roles"@) && details["roles"@] is Dict {
        let roles = details["roles"@]->Dict_0;
        RouterCapabilities {
            broker: roles.contains_key("broker"@),
            dealer: roles.contains_key("dealer"@),
        }
    } else {
        RouterCapabilities { broker: false, dealer: false }
    }
}

impl RouterCapabilities {
    /// Reads the capabilities from the details of a WELCOME message.
    pub fn from_details(details: &Dict) -> (found: Self)
        ensures
            found == capabilities(crate::transport::dict_model(*details)),
    {
        proof {
            crate::transport::lemma_dict_model(*details);
        }
        match details.get("roles") {
            Some(TV::Dict(roles)) => {
                proof {
                    crate::transport::lemma_dict_model(*roles);
                }
                RouterCapabilities {
                    broker: roles.contains_key("broker"),
                    dealer: roles.contains_key("dealer"),
                }
            },
            _ => RouterCapabilities { broker: false, dealer: false },
        }
    }
}

/// The states a client can be in, according to WAMP.
/// Clients are not made available to consumers of this library until they reach
/// their initial "Established" state.
#[derive(Clone, Copy, Debug)]
pub enum ClientState {
    /// The connection to the service is closed.
    Closed,
    /// The client has sent the initial "HELLO" message, but not received a response.
    Establishing,
    /// The client received anything other than a "WELCOME" while waiting for a "WELCOME",
    /// or received "HELLO" or "AUTHENTICATE" while "Established".
    Failed,
    /// The client is authenticating the router or the router is authenticating the client.
    Authenticating,
    /// The connection is established and PUB/SUB and/or RPC messages can be exchanged with
    /// the router freely.
    Established {
        /// The ID of the session.
        session_id: Id<GlobalScope>,
        /// What the router is able to do.
        router_capabilities: RouterCapabilities,
    },
    /// The client initiated a clean connection termination, and the router has not yet responded.
    ShuttingDown,
    /// The router initiated a clean connection termination, and the client has not yet responded.
    Closing,
    /// We're completely done; the transport is closed.
    TransportClosed,
}

impl PartialEq for ClientState {
    fn eq(&self, other: &Self) -> (same: bool) {
        match (self, other) {
            (ClientState::Closed, ClientState::Closed) => true,
            (ClientState::Establishing, ClientState::Establishing) => true,
            (ClientState::Failed, ClientState::Failed) => true,
            (ClientState::Authenticating, ClientState::Authenticating) => true,
            (
                ClientState::Established { session_id: a, router_capabilities: x },
                ClientState::Established { session_id: b, router_capabilities: y },
            ) => *a == *b && *x == *y,
            (ClientState::ShuttingDown, ClientState::ShuttingDown) => true,
            (ClientState::Closing, ClientState::Closing) => true,
            (ClientState::TransportClosed, ClientState::TransportClosed) => true,
            _ => false,
        }
    }
}

impl Eq for ClientState {

}

impl vstd::std_specs::cmp::PartialEqSpecImpl for ClientState {
    open spec fn obeys_eq_spec() -> bool {
        true
    }

    open spec fn eq_spec(&self, other: &Self) -> bool {
        match (self, other) {
            (
                ClientState::Established { session_id: a, router_capabilities: x },
                ClientState::Established { session_id: b, router_capabilities: y },
            ) => a@ == b@ && x == y,
            _ => *self == *other,
        }
    }
}

/// The name of a state.
pub open spec fn state_name(state: ClientState) -> Seq<char> {
    match state {
        ClientState::Closed => "CLOSED"@,
        ClientState::Establishing => "ESTABLISHING"@,
        ClientState::Failed => "FAILED"@,
        ClientState::Authenticating => "AUTHENTICATING"@,
        ClientState::Established { .. } => "ESTABLISHED"@,
        ClientState::ShuttingDown => "SHUTTING_DOWN"@,
        ClientState::Closing => "CLOSING"@,
        ClientState::TransportClosed => "TRANSPORT_CLOSED"@,
    }
}

impl ClientState {
    /// Checks whether messages can be exchanged with the router freely.
    pub fn is_established(&self) -> (established: bool)
        ensures
            established == (*self is Established),
    {
        match self {
            ClientState::Established { .. } => true,
            _ => false,
        }
    }

    /// The name of this state.
    pub fn get_name(&self) -> (name: &'static str)
        ensures
            name@ == state_name(*self),
    {
        match self {
            ClientState::Closed => "CLOSED",
            ClientState::Establishing => "ESTABLISHING",
            ClientState::Failed => "FAILED",
            ClientState::Authenticating => "AUTHENTICATING",
            ClientState::Established { .. } => "ESTABLISHED",
            ClientState::ShuttingDown => "SHUTTING_DOWN",
            ClientState::Closing => "CLOSING",
            ClientState::TransportClosed => "TRANSPORT_CLOSED",
        }
    }
}

/// If the client state ever changes to a value that fails the predicate, this completes with an
/// error; until then the task will be notified of every change.
pub fn watch_for_client_state_change<F: Fn(ClientState) -> bool>(
    state: &mut PollableValue<ClientState>,
    task: u64,
    is_ok: F,
) -> (polled: Poll<WampError>)
    requires
        forall|s: ClientState| call_requires(is_ok, (s,)),
    ensures
        final(state)@.val == old(state)@.val,
        final(state)@.waiting == crate::pollable::registered(old(state)@.waiting, task),
        match polled {
            Poll::Pending => call_ensures(is_ok, (old(state)@.val,), true),
            Poll::Ready(error) => call_ensures(is_ok, (old(state)@.val,), false) && error@
                == WampErrorModel::ClientStateChanged(state_name(old(state)@.val)),
        },
{
    let current = state.read(Some(task));
    if is_ok(current) {
        Poll::Pending
    } else {
        Poll::Ready(WampError::ClientStateChanged(current.get_name()))
    }
}

/// A span of time.
#[derive(Debug, Clone, Copy, Eq, PartialEq, Structural)]
pub struct Duration {
    /// The whole seconds.
    pub secs: u64,
    /// The nanoseconds beyond the whole seconds.
    pub nanos: u32,
}

impl Duration {
    /// So many seconds.
    pub fn from_secs(secs: u64) -> (duration: Self)
        ensures
            duration == (Duration { secs, nanos: 0 }),
    {
        Duration { secs, nanos: 0 }
    }
}

/// Configuration options for a new client.
pub struct ClientConfig<'a> {
    /// The URL to connect to.
    pub url: &'a str,
    /// The realm to connect to.
    pub realm: Uri,
    /// The timeout for basic requests to the router (subscribing, publishing, etc). This
    /// does not effect shutdown or RPC invocations, each of which have their own timeouts.
    pub timeout: Duration,
    /// The maximum time to wait for a "GOODBYE" message from the router in response to
    /// a client-initiated disconnection.
    pub shutdown_timeout: Duration,
    /// If true, the client will panic when dropped if it's still open.
    pub panic_on_drop_while_open: bool,
    /// The user-agent string that the client will optionally send to the router.
    pub user_agent: Option<String>,
}

impl<'a> ClientConfig<'a> {
    /// Creates a new ClientConfig with some default values. They can be overridden after creation if
    /// desired. The defaults are:
    ///
    /// * `timeout`: 10 seconds
    /// * `shutdown_timeout`: 1 second
    /// * `panic_on_drop_while_open`: true
    /// * `user_agent`: None
    pub fn new(url: &'a str, realm: Uri) -> (config: Self)
        ensures
            config.url == url,
            config.realm == realm,
            config.timeout == (Duration { secs: 10, nanos: 0 }),
            config.shutdown_timeout == (Duration { secs: 1, nanos: 0 }),
            config.panic_on_drop_while_open,
            config.user_agent is None,
    {
        ClientConfig {
            url,
            realm,
            timeout: Duration::from_secs(10),
            shutdown_timeout: Duration::from_secs(1),
            panic_on_drop_while_open: true,
            user_agent: None,
        }
    }
}

/// An extension on top of a stream that is used by subscriptions.
pub trait SubscriptionStream {
    /// The raw ID of this subscription.
    spec fn subscription_model(&self) -> u64;

    /// Returns the ID of this subscription.
    fn get_subscription_id(&self) -> (id: Id<RouterScope>)
        ensures
            id@ == self.subscription_model(),
    ;
}

/// Arguments to an RPC call.
#[derive(Debug)]
pub struct RpcArgs {
    /// The positional arguments. If there are none, the `Vec` will be empty.
    pub arguments: Vec<TV>,
    /// The keyword arguments. If there are none, the dictionary will be empty.
    pub arguments_kw: Dict,
}

/// Return value from an RPC call.
#[derive(Debug)]
pub struct RpcReturn {
    /// Positional return values. If there are none, set this to an empty `Vec`.
    pub arguments: Vec<TV>,
    /// Keyword return values. If there are none, set this to an empty dictionary.
    pub arguments_kw: Dict,
}

/// A message broadcast on a channel.
#[derive(Debug)]
pub struct Broadcast {
    /// Positional values. If there are none, this should be an empty `Vec`.
    pub arguments: Vec<TV>,
    /// Keyword values. If there are none, this should be an empty dictionary.
    pub arguments_kw: Dict,
}

/// What a [`Broadcast`] says.
#[verifier::ext_equal]
pub struct BroadcastModel {
    /// The positional values.
    pub arguments: Seq<TvModel>,
    /// The keyword values.
    pub arguments_kw: Map<Seq<char>, TvModel>,
}

impl View for Broadcast {
    type V = BroadcastModel;

    open spec fn view(&self) -> BroadcastModel {
        BroadcastModel {
            arguments: crate::transport::list_model(self.arguments@),
            arguments_kw: crate::transport::dict_model(self.arguments_kw),
        }
    }
}

/// The result of registering a function as an RPC.
#[derive(Debug)]
pub struct Registration {
    /// The ID of the registration, chosen by the router.
    pub id: Id<RouterScope>,
}

/// The result of subscribing to a channel. Can be used to unsubscribe.
#[derive(Debug)]
pub struct Subscription {
    /// The ID of the subscription, chosen by the router.
    pub id: Id<RouterScope>,
}

impl PartialEq for Subscription {
    fn eq(&self, other: &Self) -> (same: bool) {
        self.id == other.id
    }
}

impl Eq for Subscription {

}

impl vstd::std_specs::cmp::PartialEqSpecImpl for Subscription {
    open spec fn obeys_eq_spec() -> bool {
        true
    }

    open spec fn eq_spec(&self, other: &Self) -> bool {
        self.id@ == other.id@
    }
}

/// What a request that needs a broker is refused with in a state, or `None` where it is not
/// refused: the session has to be established, with a router that is a broker.
pub open spec fn broker_refusal(state: ClientState) -> Option<WampErrorModel> {
    match state {
        ClientState::Established { router_capabilities, .. } => if router_capabilities.broker {
            None
        } else {
            Some(WampErrorModel::RouterSupportMissing("broker"@))
        },
        _ => Some(WampErrorModel::InvalidClientState),
    }
}

/// Refuses requests that need a broker unless the session is established, with a router that is a
/// broker.
pub fn require_broker(state: ClientState) -> (result: Result<(), WampError>)
    ensures
        match result {
            Ok(()) => broker_refusal(state) is None,
            Err(error) => broker_refusal(state) == Some(error@),
        },
{
    match state {
        ClientState::Established { router_capabilities, .. } => if router_capabilities.broker {
            Ok(())
        } else {
            Err(WampError::RouterSupportMissing("broker"))
        },
        _ => Err(WampError::InvalidClientState),
    }
}

/// A WAMP client: what it has received, its state and its tasks.
///
/// It takes all 4 roles supported by this crate. An operation that it begins is carried on with the
/// machine that it returns; whoever runs the client holds the sink.
#[derive(Debug)]
pub struct Client {
    /// The messages that have been received.
    pub received: MessageBuffer,
    /// The state. All operations should check it before accepting incoming messages.
    pub state: PollableValue<ClientState>,
    /// The tasks of the client.
    pub task_tracker: ClientTaskTracker,
    /// If true, the client will panic when dropped if it's still open.
    pub panic_on_drop_while_open: bool,
}

/// What a [`Client`] knows.
#[verifier::ext_equal]
pub struct ClientModel {
    /// The messages that have been received.
    pub received: BufferModel,
    /// The state, and the tasks that wait for it to change.
    pub state: PollableValueModel<ClientState>,
    /// The tasks of the client.
    pub task_tracker: TrackerModel,
    /// If true, the client will panic when dropped if it's still open.
    pub panic_on_drop_while_open: bool,
}

impl ClientModel {
    /// The client has begun to shut down, and its tasks are stopped.
    pub open spec fn shutting_down(self) -> Self {
        ClientModel {
            state: PollableValueModel { val: ClientState::ShuttingDown, waiting: Seq::empty() },
            ..self
        }.without_subscriptions()
    }

    /// The tasks of all subscriptions are stopped.
    pub open spec fn without_subscriptions(self) -> Self {
        ClientModel {
            task_tracker: TrackerModel { subscriptions: Seq::empty(), ..self.task_tracker },
            ..self
        }
    }

    /// The transport is closed.
    pub open spec fn transport_closed(self) -> Self {
        ClientModel {
            state: PollableValueModel { val: ClientState::TransportClosed, waiting: Seq::empty() },
            ..self
        }
    }

    /// Whether the client panics when it is dropped: it is not completely closed, and is to panic
    /// then.
    pub open spec fn panics_when_dropped(self) -> bool {
        !(self.state.val is TransportClosed) && self.panic_on_drop_while_open
    }
}

impl View for Client {
    type V = ClientModel;

    open spec fn view(&self) -> ClientModel {
        ClientModel {
            received: self.received@,
            state: self.state@,
            task_tracker: self.task_tracker@,
            panic_on_drop_while_open: self.panic_on_drop_while_open,
        }
    }
}

/// What is to be done when a client is closed or dropped.
#[derive(Debug)]
pub struct Shutdown {
    /// The tasks to notify that the state has changed.
    pub woken: Vec<u64>,
    /// The signals to give to tasks that are stopped.
    pub stopped: Vec<u64>,
}

/// What is to be done when a client is dropped.
#[derive(Debug)]
pub struct Dropped {
    /// The signals to give to tasks that are stopped.
    pub stopped: Vec<u64>,
    /// The signal to give to the message listener, if it has not been given before.
    pub msg_listener: Option<u64>,
    /// Whether the client was not completely closed.
    pub still_open: bool,
    /// Whether to panic.
    pub panics: bool,
}

impl Client {
    /// Publishes messages to a topic, in their order. Also tells what is to be done first.
    ///
    /// Note that in particular, if publishing a message fails because the broker elects to
    /// refuse it, that failure will not be reflected in the [`Result`] this leads to.
    pub fn publish(&mut self, topic: Uri, broadcasts: Vec<Broadcast>) -> (begun: Result<
        (PublishOp, SendStep),
        WampError,
    >)
        ensures
            final(self)@ == old(self)@,
            match begun {
                Ok((op, step)) => {
                    let messages = crate::client::ops::publish::broadcasts_model(broadcasts@);
                    &&& broker_refusal(old(self)@.state.val) is None
                    &&& op@ == (PublishModel {
                        topic: topic@,
                        messages,
                        stage: crate::client::ops::publish::next_stage(messages),
                    })
                    &&& step@ == crate::client::ops::publish::next_step(messages)
                },
                Err(error) => broker_refusal(old(self)@.state.val) == Some(error@),
            },
    {
        match require_broker(self.state.read(None)) {
            Ok(()) => Ok(PublishOp::new(topic, broadcasts)),
            Err(error) => Err(error),
        }
    }

    /// Publishes a message, requesting acknowledgement. What this leads to is the Publication ID
    /// of the published message.
    pub fn publish_with_ack(
        &mut self,
        topic: Uri,
        broadcast: Broadcast,
        ids: &mut SessionIdSource,
    ) -> (begun: Result<PublishWithAckOp, WampError>)
        ensures
            final(self)@ == old(self)@,
            match begun {
                Ok(op) => {
                    &&& broker_refusal(old(self)@.state.val) is None
                    &&& final(ids)@ == crate::id::session_successor(old(ids)@)
                    &&& op.request@ == old(ids)@
                    &&& op.send@ == crate::client::ops::publish::ack_send(
                        topic@,
                        old(ids)@ as u64,
                        broadcast@,
                    )
                },
                Err(error) => broker_refusal(old(self)@.state.val) == Some(error@) && final(ids)@
                    == old(ids)@,
            },
    {
        match require_broker(self.state.read(None)) {
            Ok(()) => Ok(PublishWithAckOp::new(topic, broadcast, ids)),
            Err(error) => Err(error),
        }
    }

    /// Subscribes to a channel.
    ///
    /// # Failure Modes
    ///
    /// * If the client is closed (either because of a local or remote closure), this will
    /// immediately be an error.
    ///
    /// * If the router does not support the "broker" role, this will immediately be an error.
    ///
    /// * If the router does not acknowledge the subscription within the client timeout period, the
    /// operation ends with an error.
    pub fn subscribe(&mut self, topic: Uri, ids: &mut SessionIdSource) -> (begun: Result<
        SubscribeOp,
        WampError,
    >)
        ensures
            final(self)@ == old(self)@,
            match begun {
                Ok(op) => {
                    &&& broker_refusal(old(self)@.state.val) is None
                    &&& final(ids)@ == crate::id::session_successor(old(ids)@)
                    &&& op.request@ == old(ids)@
                    &&& op.send@ == crate::client::ops::subscribe::subscribe_send(
                        topic@,
                        old(ids)@ as u64,
                    )
                },
                Err(error) => broker_refusal(old(self)@.state.val) == Some(error@) && final(ids)@
                    == old(ids)@,
            },
    {
        match require_broker(self.state.read(None)) {
            Ok(()) => Ok(SubscribeOp::new(topic, ids)),
            Err(error) => Err(error),
        }
    }

    /// Cancels an existing subscription.
    pub fn unsubscribe<S: SubscriptionStream>(
        &mut self,
        subscription: &S,
        ids: &mut SessionIdSource,
    ) -> (begun: Result<UnsubscribeOp, WampError>)
        ensures
            final(self)@ == old(self)@,
            match begun {
                Ok(op) => {
                    &&& broker_refusal(old(self)@.state.val) is None
                    &&& final(ids)@ == crate::id::session_successor(old(ids)@)
                    &&& op.request@ == old(ids)@
                    &&& op.subscription@ == subscription.subscription_model()
                    &&& op.send@ == crate::client::ops::unsubscribe::unsubscribe_send(
                        subscription.subscription_model(),
                        old(ids)@ as u64,
                    )
                },
                Err(error) => broker_refusal(old(self)@.state.val) == Some(error@) && final(ids)@
                    == old(ids)@,
            },
    {
        match require_broker(self.state.read(None)) {
            Ok(()) => Ok(UnsubscribeOp::new(subscription, ids)),
            Err(error) => Err(error),
        }
    }

    /// Closes the connection to the server. This leads to success if the connected router actively
    /// acknowledges our disconnect within the shutdown timeout, and to an error otherwise. After
    /// this is called (but before it is over), all incoming messages except acknowledgement of our
    /// disconnection are ignored.
    ///
    /// Incoming Pub/Sub events are no longer listened for.
    pub fn close(&mut self, reason: Uri) -> (begun: (CloseOp, Shutdown))
        ensures
            final(self)@ == old(self)@.shutting_down(),
            begun.1.woken@ == old(self)@.state.waiting,
            begun.1.stopped@ == crate::client::task_tracker::signals(
                old(self)@.task_tracker.subscriptions,
            ),
            begun.0.send@ == crate::client::ops::close::goodbye_send(reason@),
    {
        let woken = self.state.write(ClientState::ShuttingDown);
        let stopped = self.task_tracker.stop_all_except_message_listener();
        (CloseOp::new(reason), Shutdown { woken, stopped })
    }

    /// Goes on after the router has acknowledged the disconnect: stops the tasks that were begun
    /// meanwhile. The sink is to be closed next.
    pub fn acknowledged(&mut self) -> (stopped: Vec<u64>)
        ensures
            stopped@ == crate::client::task_tracker::signals(
                old(self)@.task_tracker.subscriptions,
            ),
            final(self)@ == old(self)@.without_subscriptions(),
    {
        self.task_tracker.stop_all_except_message_listener()
    }

    /// Ends the closing after the sink has been closed, or failed to be. A failure is passed over
    /// where the transport has been closed already, by the listener. Tells which tasks are to be
    /// notified that the state has changed.
    pub fn closed(&mut self, sink_closed: Result<(), String>) -> (result: Result<Vec<u64>, String>)
        ensures
            match sink_closed {
                Err(error) if !(old(self)@.state.val is TransportClosed) => {
                    &&& result == Err::<Vec<u64>, String>(error)
                    &&& final(self)@ == old(self)@
                },
                _ => {
                    &&& result matches Ok(woken)
                    &&& woken@ == old(self)@.state.waiting
                    &&& final(self)@ == old(self)@.transport_closed()
                },
            },
    {
        if let Err(error) = sink_closed {
            if !self.is_transport_closed() {
                return Err(error);
            }
        }
        Ok(self.state.write(ClientState::TransportClosed))
    }

    /// Returns true if the client is, at the instant of querying, in the TransportClosed state.
    pub fn is_transport_closed(&mut self) -> (closed: bool)
        ensures
            closed == (old(self)@.state.val is TransportClosed),
            final(self)@ == old(self)@,
    {
        match self.state.read(None) {
            ClientState::TransportClosed => true,
            _ => false,
        }
    }

    /// Waits for the client to enter the `TransportClosed` state.
    pub fn wait_for_close(&mut self, task: u64) -> (polled: Poll<()>)
        ensures
            polled == (if old(self)@.state.val is TransportClosed {
                Poll::Ready(())
            } else {
                Poll::Pending
            }),
            final(self)@ == (ClientModel {
                state: PollableValueModel {
                    val: old(self)@.state.val,
                    waiting: crate::pollable::registered(old(self)@.state.waiting, task),
                },
                ..old(self)@
            }),
    {
        match self.state.read(Some(task)) {
            ClientState::TransportClosed => Poll::Ready(()),
            _ => Poll::Pending,
        }
    }

    /// Makes a best-effort attempt to stop everything, because the client is dropped. One that was
    /// not completely closed panics, if it is to.
    pub fn dropped(&mut self) -> (dropped: Dropped)
        ensures
            dropped.stopped@ == crate::client::task_tracker::signals(
                old(self)@.task_tracker.subscriptions,
            ),
            dropped.msg_listener == old(self)@.task_tracker.msg_listener,
            dropped.still_open == !(old(self)@.state.val is TransportClosed),
            dropped.panics == old(self)@.panics_when_dropped(),
            final(self)@ == (ClientModel {
                task_tracker: TrackerModel { msg_listener: None, subscriptions: Seq::empty() },
                ..old(self)@
            }),
    {
        let stopped = self.task_tracker.stop_all_except_message_listener();
        let msg_listener = self.task_tracker.stop_message_listener();
        let still_open = !self.is_transport_closed();
        let panics = still_open && self.panic_on_drop_while_open;
        Dropped { stopped, msg_listener, still_open, panics }
    }
}

} // verus!
