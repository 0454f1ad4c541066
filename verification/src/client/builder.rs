//! A factory for clients.

use vstd::prelude::*;

use crate::client::ops::initialize::hello;
use crate::client::{Duration, RouterCapabilities};
use crate::id::{GlobalScope, Id};
use crate::proto::rx::RxMessage;
use crate::proto::{TxMessage, TxModel};
use crate::uri::Uri;

verus! {

/// A factory for WAMP clients.
///
/// This is a typestate for a client which has not yet initialized its connection to a router.
#[derive(Debug)]
pub struct ClientBuilder {
    /// The timeout for protocol-level IO.
    pub timeout: Duration,
}

/// What came first after the HELLO message had begun to be sent.
pub enum FirstEvent {
    /// A message.
    Received(RxMessage),
    /// The stream of the transport ended.
    StreamEnded,
    /// The transport failed. Holds the text of the error.
    Failed(String),
    /// The time was up.
    TimedOut,
}

/// Why a client could not be initialized.
#[derive(Debug)]
pub enum InitializeError {
    /// Another message than the expected one was received.
    UnexpectedMessage {
        /// The message that was received.
        message: RxMessage,
        /// The type of message that was expected.
        expecting: &'static str,
    },
    /// The stream of the transport was closed.
    TransportStreamClosed,
    /// The time was up.
    Timeout {
        /// The timeout.
        time: Duration,
    },
    /// The transport failed. Holds the text of the error.
    Transport(String),
}

/// A client that has joined a realm.
#[derive(Debug)]
pub struct InitializedClient {
    /// The ID of the session.
    pub session: Id<GlobalScope>,
    /// The timeout for protocol-level IO.
    pub timeout: Duration,
    /// What the router is able to do.
    pub router_capabilities: RouterCapabilities,
}

impl ClientBuilder {
    /// A builder over a transport that has been opened, with a timeout of 30 seconds.
    pub fn open_transport() -> (builder: Self)
        ensures
            builder.timeout == (Duration { secs: 30, nanos: 0 }),
    {
        ClientBuilder { timeout: Duration::from_secs(30) }
    }

    /// Changes the client's timeout value for protocol-level IO. The default value is 30 seconds.
    ///
    /// This does not affect timeouts for remote procedure calls.
    pub fn set_protocol_timeout(&mut self, timeout: Duration)
        ensures
            *final(self) == (ClientBuilder { timeout }),
    {
        self.timeout = timeout;
    }

    /// The message that begins the WAMP protocol, connecting to the provided Realm.
    pub fn hello(&self, realm: Uri) -> (message: TxMessage)
        ensures
            message@ == (TxModel::Hello {
                realm: realm@,
                details: crate::client::ops::initialize::hello_details(None),
            }),
    {
        hello(realm, None)
    }

    /// Initializes the client from what came first.
    pub fn initialize(self, event: FirstEvent) -> (result: Result<
        InitializedClient,
        InitializeError,
    >)
        ensures
            match event {
                FirstEvent::Received(RxMessage::Welcome(welcome)) => result == Ok::<
                    InitializedClient,
                    InitializeError,
                >(
                    InitializedClient {
                        session: welcome.session,
                        timeout: self.timeout,
                        router_capabilities: crate::client::capabilities(
                            crate::transport::dict_model(welcome.details),
                        ),
                    },
                ),
                FirstEvent::Received(message) => result matches Err(
                    InitializeError::UnexpectedMessage { message: received, expecting },
                ) && received == message && expecting@ == "Welcome"@,
                FirstEvent::StreamEnded => result matches Err(
                    InitializeError::TransportStreamClosed,
                ),
                FirstEvent::Failed(error) => result == Err::<InitializedClient, InitializeError>(
                    InitializeError::Transport(error),
                ),
                FirstEvent::TimedOut => result == Err::<InitializedClient, InitializeError>(
                    InitializeError::Timeout { time: self.timeout },
                ),
            },
    {
        match event {
            FirstEvent::Received(RxMessage::Welcome(welcome)) => Ok(
                InitializedClient {
                    session: welcome.session,
                    timeout: self.timeout,
                    router_capabilities: RouterCapabilities::from_details(&welcome.details),
                },
            ),
            FirstEvent::Received(message) => Err(
                InitializeError::UnexpectedMessage { message, expecting: "Welcome" },
            ),
            FirstEvent::StreamEnded => Err(InitializeError::TransportStreamClosed),
            FirstEvent::Failed(error) => Err(InitializeError::Transport(error)),
            FirstEvent::TimedOut => Err(InitializeError::Timeout { time: self.timeout }),
        }
    }
}

} // verus!
