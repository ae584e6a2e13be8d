//! Packets that travel from the server to the client.

pub mod login;
pub mod play;
pub mod status;
