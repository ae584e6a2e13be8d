//! The one packet of the handshaking phase.

use vstd::prelude::*;
use vstd::string::StringExecFns;
use crate::error::DecodeError;
use crate::packet::Packet;
use crate::types::{Session, State, Status, UpdateError};
use crate::utils::{decimal, push_decimal, push_signed, signed_decimal};
use crate::wire::{text, ushort, varint};

verus! {

/// The client's opening packet: it names the server it wants and the phase
/// it asks for.
#[derive(Clone, Debug)]
pub struct Handshake {
    pub protocol_version: i32,
    pub server_address: String,
    pub server_port: u16,
    pub next_state: State,
}

/// A handshake as plain values.
pub struct HandshakeFields {
    pub protocol_version: i32,
    pub server_address: Seq<char>,
    pub server_port: u16,
    pub next_state: State,
}

impl View for Handshake {
    type V = HandshakeFields;

    open spec fn view(&self) -> HandshakeFields {
        HandshakeFields {
            protocol_version: self.protocol_version,
            server_address: self.server_address@,
            server_port: self.server_port,
            next_state: self.next_state,
        }
    }
}

impl Handshake {
    /// What a payload decodes to: a variable-length protocol version, the
    /// address as a string, the port as an unsigned 16-bit number, and the
    /// requested phase as a variable-length integer, 1 for status and 2 for
    /// login.
    #[verifier::opaque]
    pub open spec fn wire(bytes: Seq<u8>) -> Result<HandshakeFields, DecodeError> {
        match varint(bytes) {
            Err(e) => Err(e),
            Ok((protocol_version, rest)) => match text(rest) {
                Err(e) => Err(e),
                Ok((server_address, rest)) => match ushort(rest) {
                    Err(e) => Err(e),
                    Ok((server_port, rest)) => match varint(rest) {
                        Err(e) => Err(e),
                        Ok((next, _)) => if next == 1 {
                            Ok(
                                HandshakeFields {
                                    protocol_version,
                                    server_address,
                                    server_port,
                                    next_state: State::Status,
                                },
                            )
                        } else if next == 2 {
                            Ok(
                                HandshakeFields {
                                    protocol_version,
                                    server_address,
                                    server_port,
                                    next_state: State::Login,
                                },
                            )
                        } else {
                            Err(DecodeError::InvalidEnumValue)
                        },
                    },
                },
            },
        }
    }

    /// The detail line: version, address, a colon, port, and the phase asked
    /// for.
    pub open spec fn detail(f: HandshakeFields) -> Seq<char> {
        signed_decimal(f.protocol_version as int) + " "@ + f.server_address + ":"@ + decimal(
            f.server_port as nat,
        ) + " "@ + f.next_state.name()
    }

    /// A handshake with every field at its zero value.
    pub fn empty() -> (r: Self)
        ensures
            r@ == (HandshakeFields {
                protocol_version: 0,
                server_address: Seq::empty(),
                server_port: 0,
                next_state: State::Handshaking,
            }),
    {
        Handshake {
            protocol_version: 0,
            server_address: String::new(),
            server_port: 0,
            next_state: State::Handshaking,
        }
    }

    /// Decodes the fields from a frame's payload. On failure the packet is
    /// left as it was.
    pub fn parse_packet(&mut self, packet: Packet) -> (r: Result<(), DecodeError>)
        ensures
            match Self::wire(packet@) {
                Ok(f) => r is Ok && final(self)@ == f,
                Err(e) => r == Err::<(), DecodeError>(e) && *final(self) == *old(self),
            },
    {
        proof {
            reveal(Handshake::wire);
        }
        let mut packet = packet;
        let protocol_version = packet.decode_varint()?;
        let server_address = packet.decode_string()?;
        let server_port = packet.decode_ushort()?;
        let next_state = match packet.decode_varint()? {
            1 => State::Status,
            2 => State::Login,
            _ => { return Err(DecodeError::InvalidEnumValue); },
        };
        self.protocol_version = protocol_version;
        self.server_address = server_address;
        self.server_port = server_port;
        self.next_state = next_state;
        Ok(())
    }

    /// The packet's name and its detail line.
    pub fn get_printable(&self) -> (r: (&'static str, String))
        ensures
            r.0@ == "HANDSHAKE"@,
            r.1@ == Self::detail(self@),
    {
        let mut out = String::new();
        push_signed(&mut out, self.protocol_version as i64);
        out.append(" ");
        out.append(self.server_address.as_str());
        out.append(":");
        push_decimal(&mut out, self.server_port as u128);
        out.append(" ");
        let phase = self.next_state.to_string();
        out.append(phase.as_str());
        ("HANDSHAKE", out)
    }

    /// A handshake changes the session.
    pub fn status_updating(&self) -> (r: bool)
        ensures
            r,
    {
        true
    }

    /// Moves the session to the phase that the client asked for.
    pub fn update_status(&self, status: &mut Status) -> (r: Result<(), UpdateError>)
        ensures
            r is Ok,
            final(status)@ == (Session { state: self.next_state, ..old(status)@ }),
    {
        status.state = self.next_state;
        Ok(())
    }
}

} // verus!
