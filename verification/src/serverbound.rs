//! Packets that travel from the client to the server.

pub mod handshaking;
pub mod login;
pub mod status;
