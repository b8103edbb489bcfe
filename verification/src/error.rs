//! The errors that the client reports to its caller.

use vstd::prelude::*;

verus! {

/// Why an operation of the client failed.
#[derive(Debug, Clone, PartialEq, Eq)]
pub enum Error {
    /// The handshake with the relay failed; the transport's description.
    WebSocket(String),
    /// The relay's address could not be parsed; the parser's description.
    Parse(String),
    /// The session could not be started.
    Listen,
    /// The outbound queue is closed: the session is gone.
    Send,
    /// The inbound queue is closed: the session is gone.
    Receive,
    /// The transport could not be switched to non-blocking mode.
    NonBlocking,
    /// The handle is no longer connected.
    NotConnected,
    /// No keys were given.
    KeysMissing,
    /// A required connection parameter is missing.
    ArgMissing,
    /// A direct message could not be encrypted.
    Nip04Encrypt,
    /// A direct message could not be decrypted.
    Nip04Decrypt,
    /// The event is not an encrypted direct message.
    NotNip04,
    /// The event could not be signed.
    SignEvent,
    /// The connection was closed; reported once.
    ConnectionClosed,
    /// An inbound payload is not a well-formed message.
    RawRelayMessage,
    /// An inbound payload is well-formed but no message of the protocol.
    RelayMessage,
}

} // verus!
