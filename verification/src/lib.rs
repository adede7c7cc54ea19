//! A small RFB (VNC) server: the wire format of the messages it exchanges, the
//! decisions it takes during the handshake and the session, and the builder
//! that configures it.

pub mod encoding;
pub mod wire;
pub mod client_message;
pub mod server_message;
pub mod handshake;
pub mod session;
pub mod server;
