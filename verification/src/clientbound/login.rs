//! The server's packets of the login phase.

use vstd::prelude::*;
use vstd::string::StringExecFns;
use crate::error::DecodeError;
use crate::packet::Packet;
use crate::serverbound::login::{plugin_detail, plugin_wire, PluginFields};
use crate::types::{Session, State, Status, UpdateError};
use crate::utils::{
    hex_text, lower_hex, push_hex, push_short_hex, push_signed, shortened, signed_decimal,
};
use crate::wire::{run, text, unsigned, uuid, varint};

verus! {

/// The server asks the client to switch to encryption.
#[derive(Clone, Debug)]
pub struct EncRequest {
    pub server_id: String,
    pub public_key_length: i32,
    pub public_key: Vec<u8>,
    pub verify_token_length: i32,
    pub verify_token: Vec<u8>,
}

/// An encryption request as plain values.
pub struct EncRequestFields {
    pub server_id: Seq<char>,
    pub public_key_length: i32,
    pub public_key: Seq<u8>,
    pub verify_token_length: i32,
    pub verify_token: Seq<u8>,
}

impl View for EncRequest {
    type V = EncRequestFields;

    open spec fn view(&self) -> EncRequestFields {
        EncRequestFields {
            server_id: self.server_id@,
            public_key_length: self.public_key_length,
            public_key: self.public_key@,
            verify_token_length: self.verify_token_length,
            verify_token: self.verify_token@,
        }
    }
}

impl EncRequest {
    /// What a payload decodes to: the server id as a string, then the public
    /// key and the verify token, each one a variable-length count and that
    /// many bytes.
    #[verifier::opaque]
    pub open spec fn wire(bytes: Seq<u8>) -> Result<EncRequestFields, DecodeError> {
        match text(bytes) {
            Err(e) => Err(e),
            Ok((server_id, rest)) => match varint(rest) {
                Err(e) => Err(e),
                Ok((public_key_length, rest)) => match run(public_key_length, rest) {
                    Err(e) => Err(e),
                    Ok((public_key, rest)) => match varint(rest) {
                        Err(e) => Err(e),
                        Ok((verify_token_length, rest)) => match run(verify_token_length, rest) {
                            Err(e) => Err(e),
                            Ok((verify_token, _)) => Ok(
                                EncRequestFields {
                                    server_id,
                                    public_key_length,
                                    public_key,
                                    verify_token_length,
                                    verify_token,
                                },
                            ),
                        },
                    },
                },
            },
        }
    }

    /// The detail line: each count, followed by its bytes in hexadecimal cut
    /// down to twenty characters. The server id is left out.
    pub open spec fn detail(f: EncRequestFields) -> Seq<char> {
        signed_decimal(f.public_key_length as int) + " "@ + shortened(hex_text(f.public_key), 20)
            + " "@ + signed_decimal(f.verify_token_length as int) + " "@ + shortened(
            hex_text(f.verify_token),
            20,
        )
    }

    /// An encryption request with every field at its zero value.
    pub fn empty() -> (r: Self)
        ensures
            r@ == (EncRequestFields {
                server_id: Seq::empty(),
                public_key_length: 0,
                public_key: Seq::empty(),
                verify_token_length: 0,
                verify_token: Seq::empty(),
            }),
    {
        Self {
            server_id: String::new(),
            public_key_length: 0,
            public_key: Vec::new(),
            verify_token_length: 0,
            verify_token: Vec::new(),
        }
    }

    /// Decodes the fields from a frame's payload. On failure the packet is
    /// left as it was.
    pub fn parse_packet(&mut self, packet: Packet) -> (r: Result<(), DecodeError>)
        ensures
            match Self::wire(packet@) {
                Ok(f) => r is Ok && final(self)@ == f,
                Err(e) => r == Err::<(), DecodeError>(e) && *final(self) == *old(self),
            },
    {
        proof {
            reveal(EncRequest::wire);
        }
        let mut packet = packet;
        let server_id = packet.decode_string()?;
        let public_key_length = packet.decode_varint()?;
        let public_key = packet.read_run(public_key_length)?;
        let verify_token_length = packet.decode_varint()?;
        let verify_token = packet.read_run(verify_token_length)?;
        self.server_id = server_id;
        self.public_key_length = public_key_length;
        self.public_key = public_key;
        self.verify_token_length = verify_token_length;
        self.verify_token = verify_token;
        Ok(())
    }

    /// The packet's name and its detail line.
    pub fn get_printable(&self) -> (r: (&'static str, String))
        ensures
            r.0@ == "ENC_REQUEST"@,
            r.1@ == Self::detail(self@),
    {
        let mut out = String::new();
        push_signed(&mut out, self.public_key_length as i64);
        out.append(" ");
        push_short_hex(&mut out, self.public_key.as_slice(), 20);
        out.append(" ");
        push_signed(&mut out, self.verify_token_length as i64);
        out.append(" ");
        push_short_hex(&mut out, self.verify_token.as_slice(), 20);
        ("ENC_REQUEST", out)
    }
}

/// The server sets the size from which frames are compressed.
#[derive(Clone, Copy, Debug, PartialEq, Eq, Structural)]
pub struct SetCompression {
    pub threshold: i32,
}

impl SetCompression {
    /// What a payload decodes to: the threshold as a variable-length integer.
    #[verifier::opaque]
    pub open spec fn wire(bytes: Seq<u8>) -> Result<SetCompression, DecodeError> {
        match varint(bytes) {
            Err(e) => Err(e),
            Ok((threshold, _)) => Ok(SetCompression { threshold }),
        }
    }

    /// The detail line: the threshold.
    pub open spec fn detail(self) -> Seq<char> {
        signed_decimal(self.threshold as int)
    }

    /// The threshold that the session takes from this packet: the 32 bits of
    /// the number, read as unsigned.
    pub open spec fn compress(self) -> u32 {
        unsigned(self.threshold as int, 0x1_0000_0000) as u32
    }

    /// A packet with every field at its zero value.
    pub fn empty() -> (r: Self)
        ensures
            r == (SetCompression { threshold: 0 }),
    {
        Self { threshold: 0 }
    }

    /// Decodes the fields from a frame's payload. On failure the packet is
    /// left as it was.
    pub fn parse_packet(&mut self, packet: Packet) -> (r: Result<(), DecodeError>)
        ensures
            match Self::wire(packet@) {
                Ok(f) => r is Ok && *final(self) == f,
                Err(e) => r == Err::<(), DecodeError>(e) && *final(self) == *old(self),
            },
    {
        proof {
            reveal(SetCompression::wire);
        }
        let mut packet = packet;
        let threshold = packet.decode_varint()?;
        self.threshold = threshold;
        Ok(())
    }

    /// The packet's name and its detail line.
    pub fn get_printable(&self) -> (r: (&'static str, String))
        ensures
            r.0@ == "SET_COMPRESSION"@,
            r.1@ == self.detail(),
    {
        let mut out = String::new();
        push_signed(&mut out, self.threshold as i64);
        ("SET_COMPRESSION", out)
    }

    /// This packet changes the session.
    pub fn status_updating(&self) -> (r: bool)
        ensures
            r,
    {
        true
    }

    /// Sets the session's compression threshold.
    pub fn update_status(&self, status: &mut Status) -> (r: Result<(), UpdateError>)
        ensures
            r is Ok,
            final(status)@ == (Session { compress: self.compress(), ..old(status)@ }),
    {
        status.compress = if self.threshold >= 0 {
            self.threshold as u32
        } else {
            (self.threshold as i64 + 0x1_0000_0000) as u32
        };
        Ok(())
    }
}

/// The server accepts the login. The play phase begins.
#[derive(Clone, Debug)]
pub struct LoginSuccess {
    pub uuid: u128,
    pub username: String,
}

/// A login success as plain values.
pub struct LoginSuccessFields {
    pub uuid: u128,
    pub username: Seq<char>,
}

impl View for LoginSuccess {
    type V = LoginSuccessFields;

    open spec fn view(&self) -> LoginSuccessFields {
        LoginSuccessFields { uuid: self.uuid, username: self.username@ }
    }
}

impl LoginSuccess {
    /// What a payload decodes to: the player's 128-bit identifier and the
    /// user name as a string.
    #[verifier::opaque]
    pub open spec fn wire(bytes: Seq<u8>) -> Result<LoginSuccessFields, DecodeError> {
        match uuid(bytes) {
            Err(e) => Err(e),
            Ok((uuid, rest)) => match text(rest) {
                Err(e) => Err(e),
                Ok((username, _)) => Ok(LoginSuccessFields { uuid, username }),
            },
        }
    }

    /// The detail line: the identifier in hexadecimal and the user name.
    pub open spec fn detail(f: LoginSuccessFields) -> Seq<char> {
        lower_hex(f.uuid as nat) + " "@ + f.username
    }

    /// A login success with every field at its zero value.
    pub fn empty() -> (r: Self)
        ensures
            r@ == (LoginSuccessFields { uuid: 0, username: Seq::empty() }),
    {
        Self { uuid: 0, username: String::new() }
    }

    /// Decodes the fields from a frame's payload. On failure the packet is
    /// left as it was.
    pub fn parse_packet(&mut self, packet: Packet) -> (r: Result<(), DecodeError>)
        ensures
            match Self::wire(packet@) {
                Ok(f) => r is Ok && final(self)@ == f,
                Err(e) => r == Err::<(), DecodeError>(e) && *final(self) == *old(self),
            },
    {
        proof {
            reveal(LoginSuccess::wire);
        }
        let mut packet = packet;
        let uuid = packet.decode_uuid()?;
        let username = packet.decode_string()?;
        self.uuid = uuid;
        self.username = username;
        Ok(())
    }

    /// The packet's name and its detail line.
    pub fn get_printable(&self) -> (r: (&'static str, String))
        ensures
            r.0@ == "LOGIN_SUCCESS"@,
            r.1@ == Self::detail(self@),
    {
        let mut out = String::new();
        push_hex(&mut out, self.uuid);
        out.append(" ");
        out.append(self.username.as_str());
        ("LOGIN_SUCCESS", out)
    }

    /// A login success changes the session.
    pub fn status_updating(&self) -> (r: bool)
        ensures
            r,
    {
        true
    }

    /// Moves the session to the play phase.
    pub fn update_status(&self, status: &mut Status) -> (r: Result<(), UpdateError>)
        ensures
            r is Ok,
            final(status)@ == (Session { state: State::Play, ..old(status)@ }),
    {
        status.state = State::Play;
        Ok(())
    }
}

/// The server refuses the login.
#[derive(Clone, Debug)]
pub struct Disconnect {
    pub reason: String,
}

/// A disconnect as plain values.
pub struct DisconnectFields {
    pub reason: Seq<char>,
}

impl View for Disconnect {
    type V = DisconnectFields;

    open spec fn view(&self) -> DisconnectFields {
        DisconnectFields { reason: self.reason@ }
    }
}

impl Disconnect {
    /// What a payload decodes to: the reason as a string.
    #[verifier::opaque]
    pub open spec fn wire(bytes: Seq<u8>) -> Result<DisconnectFields, DecodeError> {
        match text(bytes) {
            Err(e) => Err(e),
            Ok((reason, _)) => Ok(DisconnectFields { reason }),
        }
    }

    /// The detail line: the reason.
    pub open spec fn detail(f: DisconnectFields) -> Seq<char> {
        f.reason
    }

    /// A disconnect with every field at its zero value.
    pub fn empty() -> (r: Self)
        ensures
            r@ == (DisconnectFields { reason: Seq::empty() }),
    {
        Self { reason: String::new() }
    }

    /// Decodes the fields from a frame's payload. On failure the packet is
    /// left as it was.
    pub fn parse_packet(&mut self, packet: Packet) -> (r: Result<(), DecodeError>)
        ensures
            match Self::wire(packet@) {
                Ok(f) => r is Ok && final(self)@ == f,
                Err(e) => r == Err::<(), DecodeError>(e) && *final(self) == *old(self),
            },
    {
        proof {
            reveal(Disconnect::wire);
        }
        let mut packet = packet;
        let reason = packet.decode_string()?;
        self.reason = reason;
        Ok(())
    }

    /// The packet's name and its detail line.
    pub fn get_printable(&self) -> (r: (&'static str, String))
        ensures
            r.0@ == "LOGIN_DISCONNECT"@,
            r.1@ == Self::detail(self@),
    {
        ("LOGIN_DISCONNECT", self.reason.clone())
    }

    /// A disconnect changes the session.
    pub fn status_updating(&self) -> (r: bool)
        ensures
            r,
    {
        true
    }

    /// Returns the session to the handshaking phase.
    pub fn update_status(&self, status: &mut Status) -> (r: Result<(), UpdateError>)
        ensures
            r is Ok,
            final(status)@ == (Session { state: State::Handshaking, ..old(status)@ }),
    {
        status.state = State::Handshaking;
        Ok(())
    }
}

/// The server's plugin message of the login phase.
#[derive(Clone, Debug)]
pub struct PluginRequest {
    pub message_id: i32,
    pub channel: String,
    pub data: Vec<u8>,
}

impl View for PluginRequest {
    type V = PluginFields;

    open spec fn view(&self) -> PluginFields {
        PluginFields { message_id: self.message_id, channel: self.channel@, data: self.data@ }
    }
}

impl PluginRequest {
    /// A plugin request with every field at its zero value.
    pub fn empty() -> (r: Self)
        ensures
            r@ == (PluginFields { message_id: 0, channel: Seq::empty(), data: Seq::empty() }),
    {
        Self { message_id: 0, channel: String::new(), data: Vec::new() }
    }

    /// Decodes the fields from a frame's payload. On failure the packet is
    /// left as it was.
    pub fn parse_packet(&mut self, packet: Packet) -> (r: Result<(), DecodeError>)
        ensures
            match plugin_wire(packet@) {
                Ok(f) => r is Ok && final(self)@ == f,
                Err(e) => r == Err::<(), DecodeError>(e) && *final(self) == *old(self),
            },
    {
        proof {
            reveal(plugin_wire);
        }
        let mut packet = packet;
        let message_id = packet.decode_varint()?;
        let channel = packet.decode_string()?;
        self.message_id = message_id;
        self.channel = channel;
        self.data = packet.get_vec();
        Ok(())
    }

    /// The packet's name and its detail line.
    pub fn get_printable(&self) -> (r: (&'static str, String))
        ensures
            r.0@ == "PLUGIN_REQ"@,
            r.1@ == plugin_detail(self@),
    {
        let mut out = String::new();
        push_signed(&mut out, self.message_id as i64);
        out.append(" ");
        out.append(self.channel.as_str());
        out.append(" ");
        push_short_hex(&mut out, self.data.as_slice(), 30);
        ("PLUGIN_REQ", out)
    }
}

} // verus!
