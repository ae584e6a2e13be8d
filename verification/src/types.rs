//! The session's state: the protocol phase, the compression threshold and
//! the two ciphers, and the direction of a pipe.

use vstd::prelude::*;
use vstd::string::StringExecFns;
use crate::cipher::{Cipher, Keyed};

verus! {

/// The coarse stage of a session, which decides what a packet id means.
#[derive(Debug, Eq, PartialEq, Hash, Clone, Copy, Structural)]
pub enum State {
    Handshaking,
    Status,
    Login,
    Play,
}

impl State {
    /// The name of the phase.
    pub open spec fn name(self) -> Seq<char> {
        match self {
            State::Handshaking => "Handshaking"@,
            State::Status => "Status"@,
            State::Login => "Login"@,
            State::Play => "Play"@,
        }
    }

    /// The name of the phase, as text.
    pub fn to_string(&self) -> (r: String)
        ensures
            r@ == self.name(),
    {
        match self {
            State::Handshaking => String::from_str("Handshaking"),
            State::Status => String::from_str("Status"),
            State::Login => String::from_str("Login"),
            State::Play => String::from_str("Play"),
        }
    }
}

/// The direction of a pipe: fixed for its lifetime.
#[derive(Debug, Eq, PartialEq, Hash, Clone, Copy, Structural)]
pub enum Direction {
    Serverbound,
    Clientbound,
}

impl Direction {
    /// The tag that marks the direction in a report.
    pub open spec fn tag(self) -> Seq<char> {
        match self {
            Direction::Serverbound => "C>S"@,
            Direction::Clientbound => "S>C"@,
        }
    }

    /// The tag that marks the direction in a report, as text.
    pub fn to_string(&self) -> (r: String)
        ensures
            r@ == self.tag(),
    {
        match self {
            Direction::Serverbound => String::from_str("C>S"),
            Direction::Clientbound => String::from_str("S>C"),
        }
    }
}

/// Why a packet could not change the session.
#[derive(Debug, Clone, Copy, PartialEq, Eq, Structural)]
pub enum UpdateError {
    /// No secret has been supplied.
    SecretMissing,
    /// The secret is not the base64 text of a sixteen-byte key.
    SecretMalformed,
}

/// What one connection shares between its two directions.
pub struct Status {
    /// The compression threshold; 0 means that frames are not compressed.
    pub compress: u32,
    /// The current phase.
    pub state: State,
    /// The cipher of the traffic towards the client.
    pub client_cipher: Cipher,
    /// The cipher of the traffic towards the server.
    pub server_cipher: Cipher,
}

/// A session as plain values.
pub struct Session {
    pub compress: u32,
    pub state: State,
    pub client_cipher: Option<Keyed>,
    pub server_cipher: Option<Keyed>,
}

impl View for Status {
    type V = Session;

    open spec fn view(&self) -> Session {
        Session {
            compress: self.compress,
            state: self.state,
            client_cipher: self.client_cipher@,
            server_cipher: self.server_cipher@,
        }
    }
}

impl Status {
    /// The state of a fresh connection: handshaking, no compression, both
    /// ciphers disabled.
    pub fn new() -> (r: Status)
        ensures
            r@ == (Session {
                compress: 0,
                state: State::Handshaking,
                client_cipher: None,
                server_cipher: None,
            }),
    {
        Status {
            compress: 0,
            state: State::Handshaking,
            client_cipher: Cipher::new(),
            server_cipher: Cipher::new(),
        }
    }
}

} // verus!
