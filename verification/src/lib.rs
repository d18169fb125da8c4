//! Verified core of a Qobuz Connect renderer: wire framing, credential
//! scanning, device registry state and the session state machine.

pub mod config;
pub mod connection;
pub mod credentials;
pub mod discovery;
pub mod message_text;
pub mod error;
pub mod proto;
pub mod session;
pub mod text;
pub mod transport;
pub mod types;
pub mod wire;
pub mod wrappers;
