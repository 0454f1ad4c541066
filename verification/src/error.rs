//! The errors of this crate.

use vstd::prelude::*;
use vstd::string::StringExecFns;

use crate::id::{Id, SessionScope};
use crate::uri::Uri;

verus! {

/// What a [`WampError`] says, apart from how it is stored.
#[verifier::ext_equal]
pub enum WampErrorModel {
    /// See [`WampError::Timeout`].
    Timeout,
    /// See [`WampError::RouterSupportMissing`].
    RouterSupportMissing(Seq<char>),
    /// See [`WampError::InvalidClientState`].
    InvalidClientState,
    /// See [`WampError::ClientStateChanged`].
    ClientStateChanged(Seq<char>),
    /// See [`WampError::ErrorReceived`].
    ErrorReceived { error: Seq<char>, request_type: u64, request_id: u64 },
    /// See [`WampError::ConnectFailed`].
    ConnectFailed(Seq<char>),
    /// See [`WampError::WaitForReadyToSendFailed`].
    WaitForReadyToSendFailed { message_type: Seq<char>, error: Seq<char> },
    /// See [`WampError::MessageSendFailed`].
    MessageSendFailed { message_type: Seq<char>, error: Seq<char> },
    /// See [`WampError::SinkFlushFailed`].
    SinkFlushFailed { message_type: Seq<char>, error: Seq<char> },
}

/// An error produced by the WAMP crate directly.
///
/// What went wrong in the transport is told by the text of its error.
#[allow(inconsistent_fields)]
#[derive(Debug)]
pub enum WampError {
    /// An operation timed out.
    Timeout,
    /// The router does not support a required role.
    RouterSupportMissing(&'static str),
    /// The client is in an invalid state.
    InvalidClientState,
    /// The client transitioned to an invalid state while the request was running.
    ClientStateChanged(&'static str),
    /// The router responded with an ERROR message.
    ErrorReceived {
        /// The URI describing the error.
        error: Uri,
        /// The message code of the request.
        request_type: u64,
        /// The ID of the request.
        request_id: Id<SessionScope>,
    },
    /// The transport failed to connect.
    ConnectFailed(String),
    /// The transport sink failed to become ready to send.
    WaitForReadyToSendFailed {
        /// The type of message to be sent.
        message_type: &'static str,
        /// The transport's error.
        error: String,
    },
    /// The transport failed to send a message.
    MessageSendFailed {
        /// The type of message to be sent.
        message_type: &'static str,
        /// The transport's error.
        error: String,
    },
    /// The transport sink failed to flush after sending.
    SinkFlushFailed {
        /// The type of message that was sent.
        message_type: &'static str,
        /// The transport's error.
        error: String,
    },
}

impl View for WampError {
    type V = WampErrorModel;

    open spec fn view(&self) -> WampErrorModel {
        match self {
            WampError::Timeout => WampErrorModel::Timeout,
            WampError::RouterSupportMissing(role) => WampErrorModel::RouterSupportMissing(role@),
            WampError::InvalidClientState => WampErrorModel::InvalidClientState,
            WampError::ClientStateChanged(state) => WampErrorModel::ClientStateChanged(state@),
            WampError::ErrorReceived { error, request_type, request_id } => {
                WampErrorModel::ErrorReceived {
                    error: error@,
                    request_type: *request_type,
                    request_id: request_id@,
                }
            },
            WampError::ConnectFailed(error) => WampErrorModel::ConnectFailed(error@),
            WampError::WaitForReadyToSendFailed { message_type, error } => {
                WampErrorModel::WaitForReadyToSendFailed {
                    message_type: message_type@,
                    error: error@,
                }
            },
            WampError::MessageSendFailed { message_type, error } => {
                WampErrorModel::MessageSendFailed { message_type: message_type@, error: error@ }
            },
            WampError::SinkFlushFailed { message_type, error } => {
                WampErrorModel::SinkFlushFailed { message_type: message_type@, error: error@ }
            },
        }
    }
}

/// What is shown of an error.
pub open spec fn wamp_error_text(error: WampErrorModel) -> Seq<char> {
    match error {
        WampErrorModel::Timeout => "timed out"@,
        WampErrorModel::RouterSupportMissing(role) => {
            "router does not support required role "@ + role
        },
        WampErrorModel::InvalidClientState => "the client is in an invalid state"@,
        WampErrorModel::ClientStateChanged(state) => {
            "the client transitioned to invalid state "@ + state
        },
        WampErrorModel::ErrorReceived { error, .. } => {
            "router responded with error \""@ + error + "\""@
        },
        WampErrorModel::ConnectFailed(error) => "transport failed to connect: "@ + error,
        WampErrorModel::WaitForReadyToSendFailed { message_type, error } => {
            "transport sink failed to become ready to send "@ + message_type + ": "@ + error
        },
        WampErrorModel::MessageSendFailed { message_type, error } => {
            "transport failed to send "@ + message_type + " message: "@ + error
        },
        WampErrorModel::SinkFlushFailed { message_type, error } => {
            "transport sink failed to flush after sending "@ + message_type + ": "@ + error
        },
    }
}

impl WampError {
    /// What is shown of this error.
    pub fn text(&self) -> (text: String)
        ensures
            text@ == wamp_error_text(self@),
    {
        match self {
            WampError::Timeout => "timed out".to_owned(),
            WampError::RouterSupportMissing(role) => {
                "router does not support required role ".to_owned().concat(role)
            },
            WampError::InvalidClientState => "the client is in an invalid state".to_owned(),
            WampError::ClientStateChanged(state) => {
                "the client transitioned to invalid state ".to_owned().concat(state)
            },
            WampError::ErrorReceived { error, .. } => {
                "router responded with error \"".to_owned().concat(error.to_raw().as_str()).concat(
                    "\"",
                )
            },
            WampError::ConnectFailed(error) => {
                "transport failed to connect: ".to_owned().concat(error.as_str())
            },
            WampError::WaitForReadyToSendFailed { message_type, error } => {
                "transport sink failed to become ready to send ".to_owned().concat(
                    message_type,
                ).concat(": ").concat(error.as_str())
            },
            WampError::MessageSendFailed { message_type, error } => {
                "transport failed to send ".to_owned().concat(message_type).concat(
                    " message: ",
                ).concat(error.as_str())
            },
            WampError::SinkFlushFailed { message_type, error } => {
                "transport sink failed to flush after sending ".to_owned().concat(
                    message_type,
                ).concat(": ").concat(error.as_str())
            },
        }
    }
}

/// What is shown of an error tells what went wrong, with the role, the state, the type of message or
/// the text that belongs to it.
pub proof fn lemma_error_is_shown(error: WampError)
    ensures
        ({
            let shown = wamp_error_text(error@);
            match error {
                WampError::Timeout => shown == "timed out"@,
                WampError::RouterSupportMissing(role) => shown
                    == "router does not support required role "@ + role@,
                WampError::InvalidClientState => shown == "the client is in an invalid state"@,
                WampError::ClientStateChanged(state) => shown
                    == "the client transitioned to invalid state "@ + state@,
                WampError::ErrorReceived { error: uri, .. } => shown
                    == "router responded with error \""@ + uri@ + "\""@,
                WampError::ConnectFailed(text) => shown == "transport failed to connect: "@
                    + text@,
                WampError::WaitForReadyToSendFailed { message_type, error: text } => shown
                    == "transport sink failed to become ready to send "@ + message_type@ + ": "@
                    + text@,
                WampError::MessageSendFailed { message_type, error: text } => shown
                    == "transport failed to send "@ + message_type@ + " message: "@ + text@,
                WampError::SinkFlushFailed { message_type, error: text } => shown
                    == "transport sink failed to flush after sending "@ + message_type@ + ": "@
                    + text@,
            }
        }),
{
}

/// An ERROR message that is reported is told of with its URI, the type of the request and its ID.
pub proof fn lemma_received_error_is_told(error: WampError)
    ensures
        error matches WampError::ErrorReceived { error: uri, request_type, request_id } ==> error@
            == (WampErrorModel::ErrorReceived {
            error: uri@,
            request_type,
            request_id: request_id@,
        }),
{
}

} // verus!
