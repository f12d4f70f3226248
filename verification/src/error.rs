//! The two error types: what a connection is told, and what the party that
//! reports a completion is told.

use vstd::prelude::*;

verus! {

/// Why a handshake did not end with a connection.
#[derive(Debug, PartialEq, Eq)]
pub enum AuthError {
    /// The session id was already registered when the handshake began.
    DuplicateSession,
    /// The web flow reported a failure, with this reason.
    AuthFailed(String),
    /// A handshake message could not be written to the client.
    TransportError(String),
    /// The connection went away, or ran out of time, while it waited.
    Cancelled,
}

/// Why a reported completion was not accepted.
#[derive(Debug, Clone, Copy, PartialEq, Eq)]
pub enum CompletionError {
    /// No connection waits under that session id: none ever did, or it was
    /// resolved already, or it gave up.
    UnknownSession,
}

} // verus!
