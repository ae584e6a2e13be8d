//! A passive decoder for a length-prefixed, stateful game protocol.
//!
//! The crate turns a byte stream that arrives in chunks of any size into
//! frames, undoes the optional stream cipher and zlib layers, and decodes the
//! frames into typed packets while following the session's phase.

pub mod error;
pub mod wire;
pub mod packet;
pub mod cipher;
pub mod types;
pub mod utils;
pub mod serverbound;
pub mod clientbound;
pub mod functions;
pub mod parsable;
pub mod parser;
pub mod secret;

pub use packet::Packet;
pub use parsable::Parsable;
pub use types::{Direction, State, Status};
