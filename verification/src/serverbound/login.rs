//! The client's packets of the login phase.

use vstd::prelude::*;
use vstd::string::StringExecFns;
use crate::error::DecodeError;
use crate::packet::Packet;
use crate::types::{Session, Status, UpdateError};
use crate::cipher::Keyed;
use crate::utils::{hex_text, push_short_hex, push_signed, shortened, signed_decimal};
use crate::wire::{run, text, varint};

verus! {

/// The client names the player who wants to log in.
#[derive(Clone, Debug)]
pub struct LoginStart {
    pub username: String,
}

/// A login start as plain values.
pub struct LoginStartFields {
    pub username: Seq<char>,
}

impl View for LoginStart {
    type V = LoginStartFields;

    open spec fn view(&self) -> LoginStartFields {
        LoginStartFields { username: self.username@ }
    }
}

impl LoginStart {
    /// What a payload decodes to: the user name as a string.
    #[verifier::opaque]
    pub open spec fn wire(bytes: Seq<u8>) -> Result<LoginStartFields, DecodeError> {
        match text(bytes) {
            Err(e) => Err(e),
            Ok((username, _)) => Ok(LoginStartFields { username }),
        }
    }

    /// The detail line: the user name.
    pub open spec fn detail(f: LoginStartFields) -> Seq<char> {
        f.username
    }

    /// A login start with every field at its zero value.
    pub fn empty() -> (r: Self)
        ensures
            r@ == (LoginStartFields { username: Seq::empty() }),
    {
        Self { username: String::new() }
    }

    /// Decodes the fields from a frame's payload. On failure the packet is
    /// left as it was.
    pub fn parse_packet(&mut self, packet: Packet) -> (r: Result<(), DecodeError>)
        ensures
            match Self::wire(packet@) {
                Ok(f) => r is Ok && final(self)@ == f,
                Err(e) => r == Err::<(), DecodeError>(e) && *final(self) == *old(self),
            },
    {
        proof {
            reveal(LoginStart::wire);
        }
        let mut packet = packet;
        let username = packet.decode_string()?;
        self.username = username;
        Ok(())
    }

    /// The packet's name and its detail line.
    pub fn get_printable(&self) -> (r: (&'static str, String))
        ensures
            r.0@ == "LOGIN_START"@,
            r.1@ == Self::detail(self@),
    {
        ("LOGIN_START", self.username.clone())
    }
}

/// The client's answer to an encryption request. From here on both
/// directions are encrypted.
#[derive(Clone, Debug)]
pub struct EncResponse {
    pub shared_secret_length: i32,
    pub shared_secret: Vec<u8>,
    pub verify_token_length: i32,
    pub verify_token: Vec<u8>,
}

/// An encryption response as plain values.
pub struct EncResponseFields {
    pub shared_secret_length: i32,
    pub shared_secret: Seq<u8>,
    pub verify_token_length: i32,
    pub verify_token: Seq<u8>,
}

impl View for EncResponse {
    type V = EncResponseFields;

    open spec fn view(&self) -> EncResponseFields {
        EncResponseFields {
            shared_secret_length: self.shared_secret_length,
            shared_secret: self.shared_secret@,
            verify_token_length: self.verify_token_length,
            verify_token: self.verify_token@,
        }
    }
}

/// The bytes that the standard base64 text `text` stands for, where it is
/// such a text.
pub uninterp spec fn base64_decoded(text: Seq<u8>) -> Option<Seq<u8>>;

/// The session once `key` has been offered to it: a key of sixteen bytes
/// enables both ciphers, with the key as initialization vector; without
/// one the session stays as it is.
pub open spec fn with_key(session: Session, key: Option<Seq<u8>>) -> Session {
    match key {
        Some(k) if k.len() == 16 => Session {
            client_cipher: Some(Keyed { key: k, register: k }),
            server_cipher: Some(Keyed { key: k, register: k }),
            ..session
        },
        _ => session,
    }
}

/// A key, or the text of one, as plain values.
pub open spec fn key_bytes(key: Option<Vec<u8>>) -> Option<Seq<u8>> {
    match key {
        Some(k) => Some(k@),
        None => None,
    }
}

/// Whether `key` enables the ciphers: a key of sixteen bytes does.
pub open spec fn key_result(key: Option<Seq<u8>>) -> Result<(), UpdateError> {
    match key {
        Some(k) if k.len() == 16 => Ok(()),
        _ => Err(UpdateError::SecretMalformed),
    }
}

/// Enables both ciphers of the session with `key`, where a key of sixteen
/// bytes is given, and says whether it did.
pub fn enable_ciphers(status: &mut Status, key: Option<Vec<u8>>) -> (r: Result<(), UpdateError>)
    ensures
        final(status)@ == with_key(old(status)@, key_bytes(key)),
        r == key_result(key_bytes(key)),
{
    match key {
        Some(k) => {
            if k.len() == 16 {
                status.client_cipher.enable(k.as_slice());
                status.server_cipher.enable(k.as_slice());
                Ok(())
            } else {
                Err(UpdateError::SecretMalformed)
            }
        },
        None => Err(UpdateError::SecretMalformed),
    }
}

impl EncResponse {
    /// What a payload decodes to: the shared secret and the verify token,
    /// each one a variable-length count and that many bytes.
    #[verifier::opaque]
    pub open spec fn wire(bytes: Seq<u8>) -> Result<EncResponseFields, DecodeError> {
        match varint(bytes) {
            Err(e) => Err(e),
            Ok((shared_secret_length, rest)) => match run(shared_secret_length, rest) {
                Err(e) => Err(e),
                Ok((shared_secret, rest)) => match varint(rest) {
                    Err(e) => Err(e),
                    Ok((verify_token_length, rest)) => match run(verify_token_length, rest) {
                        Err(e) => Err(e),
                        Ok((verify_token, _)) => Ok(
                            EncResponseFields {
                                shared_secret_length,
                                shared_secret,
                                verify_token_length,
                                verify_token,
                            },
                        ),
                    },
                },
            },
        }
    }

    /// The detail line: each count, followed by its bytes in hexadecimal cut
    /// down to twenty characters.
    pub open spec fn detail(f: EncResponseFields) -> Seq<char> {
        signed_decimal(f.shared_secret_length as int) + " "@ + shortened(
            hex_text(f.shared_secret),
            20,
        ) + " "@ + signed_decimal(f.verify_token_length as int) + " "@ + shortened(
            hex_text(f.verify_token),
            20,
        )
    }

    /// The session after this packet, given the secret that the outside
    /// supplied: the base64 text of the key.
    pub open spec fn updated(session: Session, secret: Option<Seq<u8>>) -> Session {
        match secret {
            Some(s) => with_key(session, base64_decoded(s)),
            None => session,
        }
    }

    /// Whether the secret that the outside supplied enables the ciphers.
    pub open spec fn update_result(secret: Option<Seq<u8>>) -> Result<(), UpdateError> {
        match secret {
            None => Err(UpdateError::SecretMissing),
            Some(s) => key_result(base64_decoded(s)),
        }
    }

    /// An encryption response with every field at its zero value.
    pub fn empty() -> (r: Self)
        ensures
            r@ == (EncResponseFields {
                shared_secret_length: 0,
                shared_secret: Seq::empty(),
                verify_token_length: 0,
                verify_token: Seq::empty(),
            }),
    {
        Self {
            shared_secret_length: 0,
            shared_secret: Vec::new(),
            verify_token_length: 0,
            verify_token: Vec::new(),
        }
    }

    /// Decodes the fields from a frame's payload. On failure the packet is
    /// left as it was.
    pub fn parse_packet(&mut self, packet: Packet) -> (r: Result<(), DecodeError>)
        ensures
            match Self::wire(packet@) {
                Ok(f) => r is Ok && final(self)@ == f,
                Err(e) => r == Err::<(), DecodeError>(e) && *final(self) == *old(self),
            },
    {
        proof {
            reveal(EncResponse::wire);
        }
        let mut packet = packet;
        let shared_secret_length = packet.decode_varint()?;
        let shared_secret = packet.read_run(shared_secret_length)?;
        let verify_token_length = packet.decode_varint()?;
        let verify_token = packet.read_run(verify_token_length)?;
        self.shared_secret_length = shared_secret_length;
        self.shared_secret = shared_secret;
        self.verify_token_length = verify_token_length;
        self.verify_token = verify_token;
        Ok(())
    }

    /// The packet's name and its detail line.
    pub fn get_printable(&self) -> (r: (&'static str, String))
        ensures
            r.0@ == "ENC_RESPONSE"@,
            r.1@ == Self::detail(self@),
    {
        let mut out = String::new();
        push_signed(&mut out, self.shared_secret_length as i64);
        out.append(" ");
        push_short_hex(&mut out, self.shared_secret.as_slice(), 20);
        out.append(" ");
        push_signed(&mut out, self.verify_token_length as i64);
        out.append(" ");
        push_short_hex(&mut out, self.verify_token.as_slice(), 20);
        ("ENC_RESPONSE", out)
    }

    /// An encryption response changes the session.
    pub fn status_updating(&self) -> (r: bool)
        ensures
            r,
    {
        true
    }

    /// Enables both ciphers with the key that `secret` holds as base64 text.
    /// Without a secret, or with one that is not the text of a sixteen-byte
    /// key, the session is left as it is and the reason is returned.
    pub fn update_status(&self, status: &mut Status, secret: &Option<Vec<u8>>) -> (r: Result<
        (),
        UpdateError,
    >)
        ensures
            final(status)@ == Self::updated(old(status)@, key_bytes(*secret)),
            r == Self::update_result(key_bytes(*secret)),
    {
        match secret {
            None => Err(UpdateError::SecretMissing),
            Some(s) => enable_ciphers(status, base64_decode(s.as_slice())),
        }
    }
}

/// `base64::decode`: the bytes that a standard base64 text stands for, and
/// nothing where the text is none.
#[verifier::external_body]
fn base64_decode(text: &[u8]) -> (r: Option<Vec<u8>>)
    ensures
        r is Some <==> base64_decoded(text@) is Some,
        r matches Some(v) ==> base64_decoded(text@) == Some(v@),
{
    match base64::decode(text) {
        Ok(v) => Some(v),
        Err(_) => None,
    }
}

/// The client's answer to a plugin request of the login phase.
#[derive(Clone, Debug)]
pub struct PluginResponse {
    pub message_id: i32,
    pub channel: String,
    pub data: Vec<u8>,
}

/// A plugin message as plain values.
pub struct PluginFields {
    pub message_id: i32,
    pub channel: Seq<char>,
    pub data: Seq<u8>,
}

/// What the payload of a plugin message decodes to: a variable-length
/// message id, the channel as a string, and whatever bytes follow.
#[verifier::opaque]
pub open spec fn plugin_wire(bytes: Seq<u8>) -> Result<PluginFields, DecodeError> {
    match varint(bytes) {
        Err(e) => Err(e),
        Ok((message_id, rest)) => match text(rest) {
            Err(e) => Err(e),
            Ok((channel, data)) => Ok(PluginFields { message_id, channel, data }),
        },
    }
}

/// The detail line of a plugin message: message id, channel, and the data
/// in hexadecimal cut down to thirty characters.
pub open spec fn plugin_detail(f: PluginFields) -> Seq<char> {
    signed_decimal(f.message_id as int) + " "@ + f.channel + " "@ + shortened(
        hex_text(f.data),
        30,
    )
}

impl View for PluginResponse {
    type V = PluginFields;

    open spec fn view(&self) -> PluginFields {
        PluginFields { message_id: self.message_id, channel: self.channel@, data: self.data@ }
    }
}

impl PluginResponse {
    /// A plugin response with every field at its zero value.
    pub fn empty() -> (r: Self)
        ensures
            r@ == (PluginFields { message_id: 0, channel: Seq::empty(), data: Seq::empty() }),
    {
        Self { message_id: 0, channel: String::new(), data: Vec::new() }
    }

    /// Decodes the fields from a frame's payload. On failure the packet is
    /// left as it was.
    pub fn parse_packet(&mut self, packet: Packet) -> (r: Result<(), DecodeError>)
        ensures
            match plugin_wire(packet@) {
                Ok(f) => r is Ok && final(self)@ == f,
                Err(e) => r == Err::<(), DecodeError>(e) && *final(self) == *old(self),
            },
    {
        proof {
            reveal(plugin_wire);
        }
        let mut packet = packet;
        let message_id = packet.decode_varint()?;
        let channel = packet.decode_string()?;
        self.message_id = message_id;
        self.channel = channel;
        self.data = packet.get_vec();
        Ok(())
    }

    /// The packet's name and its detail line.
    pub fn get_printable(&self) -> (r: (&'static str, String))
        ensures
            r.0@ == "PLUGIN_RESP"@,
            r.1@ == plugin_detail(self@),
    {
        let mut out = String::new();
        push_signed(&mut out, self.message_id as i64);
        out.append(" ");
        out.append(self.channel.as_str());
        out.append(" ");
        push_short_hex(&mut out, self.data.as_slice(), 30);
        ("PLUGIN_RESP", out)
    }
}

} // verus!
