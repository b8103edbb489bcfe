//! A client-side session manager for a relay connection: the decisions of the
//! keepalive loop, the connection state of the caller's handle and the routing
//! of what the relay sends.

pub mod client;
pub mod codec;
pub mod error;
pub mod event;
pub mod keys;
pub mod laws;
pub mod message;
pub mod queue;
pub mod router;
pub mod session;

pub use client::{WsClient, WsClientBuilder};
pub use error::Error;
pub use event::{Event, EventBuilder, PublicKey};
pub use keys::Keys;
pub use message::{Polled, RecvMsg, SendMsg};
