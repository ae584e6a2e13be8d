//! The server's packets of the status phase.

use vstd::prelude::*;
use crate::error::DecodeError;
use crate::packet::Packet;
use crate::types::{Session, State, Status, UpdateError};
use crate::utils::{push_signed, signed_decimal};
use crate::wire::{long, text};

verus! {

/// The server's status, as a JSON document.
#[derive(Clone, Debug)]
pub struct StatusResponse {
    pub json_response: String,
}

/// A status response as plain values.
pub struct StatusResponseFields {
    pub json_response: Seq<char>,
}

impl View for StatusResponse {
    type V = StatusResponseFields;

    open spec fn view(&self) -> StatusResponseFields {
        StatusResponseFields { json_response: self.json_response@ }
    }
}

impl StatusResponse {
    /// What a payload decodes to: the document as a string.
    #[verifier::opaque]
    pub open spec fn wire(bytes: Seq<u8>) -> Result<StatusResponseFields, DecodeError> {
        match text(bytes) {
            Err(e) => Err(e),
            Ok((json_response, _)) => Ok(StatusResponseFields { json_response }),
        }
    }

    /// The detail line: the document.
    pub open spec fn detail(f: StatusResponseFields) -> Seq<char> {
        f.json_response
    }

    /// A status response with every field at its zero value.
    pub fn empty() -> (r: Self)
        ensures
            r@ == (StatusResponseFields { json_response: Seq::empty() }),
    {
        Self { json_response: String::new() }
    }

    /// Decodes the fields from a frame's payload. On failure the packet is
    /// left as it was.
    pub fn parse_packet(&mut self, packet: Packet) -> (r: Result<(), DecodeError>)
        ensures
            match Self::wire(packet@) {
                Ok(f) => r is Ok && final(self)@ == f,
                Err(e) => r == Err::<(), DecodeError>(e) && *final(self) == *old(self),
            },
    {
        proof {
            reveal(StatusResponse::wire);
        }
        let mut packet = packet;
        let json_response = packet.decode_string()?;
        self.json_response = json_response;
        Ok(())
    }

    /// The packet's name and its detail line.
    pub fn get_printable(&self) -> (r: (&'static str, String))
        ensures
            r.0@ == "STATUS_RESPONSE"@,
            r.1@ == Self::detail(self@),
    {
        ("STATUS_RESPONSE", self.json_response.clone())
    }
}

/// The server's answer to a ping. It ends the status exchange.
#[derive(Clone, Copy, Debug, PartialEq, Eq, Structural)]
pub struct StatusPong {
    pub payload: i64,
}

impl StatusPong {
    /// What a payload decodes to: a signed 64-bit number.
    #[verifier::opaque]
    pub open spec fn wire(bytes: Seq<u8>) -> Result<StatusPong, DecodeError> {
        match long(bytes) {
            Err(e) => Err(e),
            Ok((payload, _)) => Ok(StatusPong { payload }),
        }
    }

    /// The detail line: the payload.
    pub open spec fn detail(self) -> Seq<char> {
        signed_decimal(self.payload as int)
    }

    /// A pong with every field at its zero value.
    pub fn empty() -> (r: Self)
        ensures
            r == (StatusPong { payload: 0 }),
    {
        Self { payload: 0 }
    }

    /// Decodes the fields from a frame's payload. On failure the packet is
    /// left as it was.
    pub fn parse_packet(&mut self, packet: Packet) -> (r: Result<(), DecodeError>)
        ensures
            match Self::wire(packet@) {
                Ok(f) => r is Ok && *final(self) == f,
                Err(e) => r == Err::<(), DecodeError>(e) && *final(self) == *old(self),
            },
    {
        proof {
            reveal(StatusPong::wire);
        }
        let mut packet = packet;
        let payload = packet.decode_long()?;
        self.payload = payload;
        Ok(())
    }

    /// The packet's name and its detail line.
    pub fn get_printable(&self) -> (r: (&'static str, String))
        ensures
            r.0@ == "STATUS_PONG"@,
            r.1@ == self.detail(),
    {
        let mut out = String::new();
        push_signed(&mut out, self.payload);
        ("STATUS_PONG", out)
    }

    /// A pong changes the session.
    pub fn status_updating(&self) -> (r: bool)
        ensures
            r,
    {
        true
    }

    /// Returns the session to the handshaking phase.
    pub fn update_status(&self, status: &mut Status) -> (r: Result<(), UpdateError>)
        ensures
            r is Ok,
            final(status)@ == (Session { state: State::Handshaking, ..old(status)@ }),
    {
        status.state = State::Handshaking;
        Ok(())
    }
}

} // verus!
