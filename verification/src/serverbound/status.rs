//! The client's packets of the status phase.

use vstd::prelude::*;
use crate::error::DecodeError;
use crate::packet::Packet;
use crate::utils::{push_signed, signed_decimal};
use crate::wire::long;

verus! {

/// The client asks for the server's status. The packet has no fields.
#[derive(Clone, Copy, Debug, PartialEq, Eq, Structural)]
pub struct StatusRequest {}

impl StatusRequest {
    /// What a payload decodes to: any payload decodes to the one request.
    #[verifier::opaque]
    pub open spec fn wire(bytes: Seq<u8>) -> Result<StatusRequest, DecodeError> {
        Ok(StatusRequest {  })
    }

    /// The detail line: empty.
    pub open spec fn detail(self) -> Seq<char> {
        Seq::empty()
    }

    /// The request.
    pub fn empty() -> (r: Self)
        ensures
            r == (StatusRequest {  }),
    {
        Self {  }
    }

    /// Decodes the fields from a frame's payload: there are none.
    pub fn parse_packet(&mut self, packet: Packet) -> (r: Result<(), DecodeError>)
        ensures
            r is Ok,
            Self::wire(packet@) == Ok::<StatusRequest, DecodeError>(*final(self)),
    {
        proof {
            reveal(StatusRequest::wire);
        }
        Ok(())
    }

    /// The packet's name and its detail line.
    pub fn get_printable(&self) -> (r: (&'static str, String))
        ensures
            r.0@ == "STATUS_REQUEST"@,
            r.1@ == self.detail(),
    {
        ("STATUS_REQUEST", String::new())
    }
}

/// The client's ping, which the server answers with the same payload.
#[derive(Clone, Copy, Debug, PartialEq, Eq, Structural)]
pub struct StatusPing {
    pub payload: i64,
}

impl StatusPing {
    /// What a payload decodes to: a signed 64-bit number.
    #[verifier::opaque]
    pub open spec fn wire(bytes: Seq<u8>) -> Result<StatusPing, DecodeError> {
        match long(bytes) {
            Err(e) => Err(e),
            Ok((payload, _)) => Ok(StatusPing { payload }),
        }
    }

    /// The detail line: the payload.
    pub open spec fn detail(self) -> Seq<char> {
        signed_decimal(self.payload as int)
    }

    /// A ping with every field at its zero value.
    pub fn empty() -> (r: Self)
        ensures
            r == (StatusPing { payload: 0 }),
    {
        Self { payload: 0 }
    }

    /// Decodes the fields from a frame's payload. On failure the packet is
    /// left as it was.
    pub fn parse_packet(&mut self, packet: Packet) -> (r: Result<(), DecodeError>)
        ensures
            match Self::wire(packet@) {
                Ok(f) => r is Ok && *final(self) == f,
                Err(e) => r == Err::<(), DecodeError>(e) && *final(self) == *old(self),
            },
    {
        proof {
            reveal(StatusPing::wire);
        }
        let mut packet = packet;
        let payload = packet.decode_long()?;
        self.payload = payload;
        Ok(())
    }

    /// The packet's name and its detail line.
    pub fn get_printable(&self) -> (r: (&'static str, String))
        ensures
            r.0@ == "STATUS_PING"@,
            r.1@ == self.detail(),
    {
        let mut out = String::new();
        push_signed(&mut out, self.payload);
        ("STATUS_PING", out)
    }
}

} // verus!
