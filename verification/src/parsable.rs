//! The closed set of packet kinds behind one interface: decode, describe,
//! and change the session.

use vstd::prelude::*;
use crate::clientbound::login::{
    Disconnect, DisconnectFields, EncRequest, EncRequestFields, LoginSuccess, LoginSuccessFields,
    PluginRequest, SetCompression,
};
use crate::clientbound::play::{
    AckPlayerDigging, DiggingStatus, FacingDirection, SpawnEntity, SpawnLivingEntity,
    SpawnPainting, SpawnPlayer, SpawnXpOrb,
};
use crate::clientbound::status::{StatusPong, StatusResponse, StatusResponseFields};
use crate::error::DecodeError;
use crate::functions::Func;
use crate::packet::Packet;
use crate::serverbound::handshaking::{Handshake, HandshakeFields};
use crate::serverbound::login::{
    key_bytes, plugin_detail, plugin_wire, EncResponse, EncResponseFields, LoginStart,
    LoginStartFields, PluginFields, PluginResponse,
};
use crate::serverbound::status::{StatusPing, StatusRequest};
use crate::types::{Session, State, Status, UpdateError};

verus! {

/// A packet of one of the kinds that are decoded.
#[derive(Clone, Debug)]
pub enum Parsable {
    Handshake(Handshake),
    StatusResponse(StatusResponse),
    StatusPong(StatusPong),
    StatusRequest(StatusRequest),
    StatusPing(StatusPing),
    Disconnect(Disconnect),
    EncRequest(EncRequest),
    LoginSuccess(LoginSuccess),
    SetCompression(SetCompression),
    PluginRequest(PluginRequest),
    LoginStart(LoginStart),
    EncResponse(EncResponse),
    PluginResponse(PluginResponse),
    SpawnEntity(SpawnEntity),
    SpawnXpOrb(SpawnXpOrb),
    SpawnLivingEntity(SpawnLivingEntity),
    SpawnPainting(SpawnPainting),
    SpawnPlayer(SpawnPlayer),
    AckPlayerDigging(AckPlayerDigging),
}

/// A packet as plain values.
pub enum Decoded {
    Handshake(HandshakeFields),
    StatusResponse(StatusResponseFields),
    StatusPong(StatusPong),
    StatusRequest(StatusRequest),
    StatusPing(StatusPing),
    Disconnect(DisconnectFields),
    EncRequest(EncRequestFields),
    LoginSuccess(LoginSuccessFields),
    SetCompression(SetCompression),
    PluginRequest(PluginFields),
    LoginStart(LoginStartFields),
    EncResponse(EncResponseFields),
    PluginResponse(PluginFields),
    SpawnEntity(SpawnEntity),
    SpawnXpOrb(SpawnXpOrb),
    SpawnLivingEntity(SpawnLivingEntity),
    SpawnPainting(SpawnPainting),
    SpawnPlayer(SpawnPlayer),
    AckPlayerDigging(AckPlayerDigging),
}

impl View for Parsable {
    type V = Decoded;

    open spec fn view(&self) -> Decoded {
        match *self {
            Parsable::Handshake(p) => Decoded::Handshake(p@),
            Parsable::StatusResponse(p) => Decoded::StatusResponse(p@),
            Parsable::StatusPong(p) => Decoded::StatusPong(p),
            Parsable::StatusRequest(p) => Decoded::StatusRequest(p),
            Parsable::StatusPing(p) => Decoded::StatusPing(p),
            Parsable::Disconnect(p) => Decoded::Disconnect(p@),
            Parsable::EncRequest(p) => Decoded::EncRequest(p@),
            Parsable::LoginSuccess(p) => Decoded::LoginSuccess(p@),
            Parsable::SetCompression(p) => Decoded::SetCompression(p),
            Parsable::PluginRequest(p) => Decoded::PluginRequest(p@),
            Parsable::LoginStart(p) => Decoded::LoginStart(p@),
            Parsable::EncResponse(p) => Decoded::EncResponse(p@),
            Parsable::PluginResponse(p) => Decoded::PluginResponse(p@),
            Parsable::SpawnEntity(p) => Decoded::SpawnEntity(p),
            Parsable::SpawnXpOrb(p) => Decoded::SpawnXpOrb(p),
            Parsable::SpawnLivingEntity(p) => Decoded::SpawnLivingEntity(p),
            Parsable::SpawnPainting(p) => Decoded::SpawnPainting(p),
            Parsable::SpawnPlayer(p) => Decoded::SpawnPlayer(p),
            Parsable::AckPlayerDigging(p) => Decoded::AckPlayerDigging(p),
        }
    }
}

impl Decoded {
    /// The kind of the packet.
    pub open spec fn kind(self) -> Func {
        match self {
            Decoded::Handshake(_) => Func::Handshake,
            Decoded::StatusResponse(_) => Func::StatusResponse,
            Decoded::StatusPong(_) => Func::StatusPong,
            Decoded::StatusRequest(_) => Func::StatusRequest,
            Decoded::StatusPing(_) => Func::StatusPing,
            Decoded::Disconnect(_) => Func::Disconnect,
            Decoded::EncRequest(_) => Func::EncRequest,
            Decoded::LoginSuccess(_) => Func::LoginSuccess,
            Decoded::SetCompression(_) => Func::SetCompression,
            Decoded::PluginRequest(_) => Func::PluginRequest,
            Decoded::LoginStart(_) => Func::LoginStart,
            Decoded::EncResponse(_) => Func::EncResponse,
            Decoded::PluginResponse(_) => Func::PluginResponse,
            Decoded::SpawnEntity(_) => Func::SpawnEntity,
            Decoded::SpawnXpOrb(_) => Func::SpawnXpOrb,
            Decoded::SpawnLivingEntity(_) => Func::SpawnLivingEntity,
            Decoded::SpawnPainting(_) => Func::SpawnPainting,
            Decoded::SpawnPlayer(_) => Func::SpawnPlayer,
            Decoded::AckPlayerDigging(_) => Func::AckPlayerDigging,
        }
    }

    /// The packet of a kind with every field at its zero value.
    #[verifier::opaque]
    pub open spec fn zero(kind: Func) -> Decoded {
        match kind {
            Func::Handshake => Decoded::Handshake(
                HandshakeFields { protocol_version: 0, server_address: Seq::empty(), server_port: 0, next_state: State::Handshaking },
            ),
            Func::StatusResponse => Decoded::StatusResponse(
                StatusResponseFields { json_response: Seq::empty() },
            ),
            Func::StatusPong => Decoded::StatusPong(
                StatusPong { payload: 0 },
            ),
            Func::StatusRequest => Decoded::StatusRequest(
                StatusRequest {  },
            ),
            Func::StatusPing => Decoded::StatusPing(
                StatusPing { payload: 0 },
            ),
            Func::Disconnect => Decoded::Disconnect(
                DisconnectFields { reason: Seq::empty() },
            ),
            Func::EncRequest => Decoded::EncRequest(
                EncRequestFields { server_id: Seq::empty(), public_key_length: 0, public_key: Seq::empty(), verify_token_length: 0, verify_token: Seq::empty() },
            ),
            Func::LoginSuccess => Decoded::LoginSuccess(
                LoginSuccessFields { uuid: 0, username: Seq::empty() },
            ),
            Func::SetCompression => Decoded::SetCompression(
                SetCompression { threshold: 0 },
            ),
            Func::PluginRequest => Decoded::PluginRequest(
                PluginFields { message_id: 0, channel: Seq::empty(), data: Seq::empty() },
            ),
            Func::LoginStart => Decoded::LoginStart(
                LoginStartFields { username: Seq::empty() },
            ),
            Func::EncResponse => Decoded::EncResponse(
                EncResponseFields { shared_secret_length: 0, shared_secret: Seq::empty(), verify_token_length: 0, verify_token: Seq::empty() },
            ),
            Func::PluginResponse => Decoded::PluginResponse(
                PluginFields { message_id: 0, channel: Seq::empty(), data: Seq::empty() },
            ),
            Func::SpawnEntity => Decoded::SpawnEntity(
                SpawnEntity {
                    entity_id: 0,
                    object_uuid: 0,
                    entity_type: 0,
                    x: 0,
                    y: 0,
                    z: 0,
                    pitch: 0,
                    yaw: 0,
                    data: 0,
                    velocity_x: 0,
                    velocity_y: 0,
                    velocity_z: 0,
                },
            ),
            Func::SpawnXpOrb => Decoded::SpawnXpOrb(
                SpawnXpOrb { entity_id: 0, x: 0, y: 0, z: 0, count: 0 },
            ),
            Func::SpawnLivingEntity => Decoded::SpawnLivingEntity(
                SpawnLivingEntity {
                    entity_id: 0,
                    object_uuid: 0,
                    entity_type: 0,
                    x: 0,
                    y: 0,
                    z: 0,
                    yaw: 0,
                    pitch: 0,
                    head_pitch: 0,
                    velocity_x: 0,
                    velocity_y: 0,
                    velocity_z: 0,
                },
            ),
            Func::SpawnPainting => Decoded::SpawnPainting(
                SpawnPainting {
                    entity_id: 0,
                    object_uuid: 0,
                    motive: 0,
                    x: 0,
                    y: 0,
                    z: 0,
                    direction: FacingDirection::North,
                },
            ),
            Func::SpawnPlayer => Decoded::SpawnPlayer(
                SpawnPlayer { entity_id: 0, player_uuid: 0, x: 0, y: 0, z: 0, yaw: 0, pitch: 0 },
            ),
            Func::AckPlayerDigging => Decoded::AckPlayerDigging(
                AckPlayerDigging {
                    x: 0,
                    y: 0,
                    z: 0,
                    block: 0,
                    status: DiggingStatus::Started,
                    successful: false,
                },
            ),
        }
    }

    /// What the payload of a frame decodes to as a packet of the kind `kind`.
    #[verifier::opaque]
    pub open spec fn wire(kind: Func, bytes: Seq<u8>) -> Result<Decoded, DecodeError> {
        match kind {
            Func::Handshake => match Handshake::wire(bytes) {
                Ok(f) => Ok(Decoded::Handshake(f)),
                Err(e) => Err(e),
            },
            Func::StatusResponse => match StatusResponse::wire(bytes) {
                Ok(f) => Ok(Decoded::StatusResponse(f)),
                Err(e) => Err(e),
            },
            Func::StatusPong => match StatusPong::wire(bytes) {
                Ok(f) => Ok(Decoded::StatusPong(f)),
                Err(e) => Err(e),
            },
            Func::StatusRequest => match StatusRequest::wire(bytes) {
                Ok(f) => Ok(Decoded::StatusRequest(f)),
                Err(e) => Err(e),
            },
            Func::StatusPing => match StatusPing::wire(bytes) {
                Ok(f) => Ok(Decoded::StatusPing(f)),
                Err(e) => Err(e),
            },
            Func::Disconnect => match Disconnect::wire(bytes) {
                Ok(f) => Ok(Decoded::Disconnect(f)),
                Err(e) => Err(e),
            },
            Func::EncRequest => match EncRequest::wire(bytes) {
                Ok(f) => Ok(Decoded::EncRequest(f)),
                Err(e) => Err(e),
            },
            Func::LoginSuccess => match LoginSuccess::wire(bytes) {
                Ok(f) => Ok(Decoded::LoginSuccess(f)),
                Err(e) => Err(e),
            },
            Func::SetCompression => match SetCompression::wire(bytes) {
                Ok(f) => Ok(Decoded::SetCompression(f)),
                Err(e) => Err(e),
            },
            Func::PluginRequest => match plugin_wire(bytes) {
                Ok(f) => Ok(Decoded::PluginRequest(f)),
                Err(e) => Err(e),
            },
            Func::LoginStart => match LoginStart::wire(bytes) {
                Ok(f) => Ok(Decoded::LoginStart(f)),
                Err(e) => Err(e),
            },
            Func::EncResponse => match EncResponse::wire(bytes) {
                Ok(f) => Ok(Decoded::EncResponse(f)),
                Err(e) => Err(e),
            },
            Func::PluginResponse => match plugin_wire(bytes) {
                Ok(f) => Ok(Decoded::PluginResponse(f)),
                Err(e) => Err(e),
            },
            Func::SpawnEntity => match SpawnEntity::wire(bytes) {
                Ok(f) => Ok(Decoded::SpawnEntity(f)),
                Err(e) => Err(e),
            },
            Func::SpawnXpOrb => match SpawnXpOrb::wire(bytes) {
                Ok(f) => Ok(Decoded::SpawnXpOrb(f)),
                Err(e) => Err(e),
            },
            Func::SpawnLivingEntity => match SpawnLivingEntity::wire(bytes) {
                Ok(f) => Ok(Decoded::SpawnLivingEntity(f)),
                Err(e) => Err(e),
            },
            Func::SpawnPainting => match SpawnPainting::wire(bytes) {
                Ok(f) => Ok(Decoded::SpawnPainting(f)),
                Err(e) => Err(e),
            },
            Func::SpawnPlayer => match SpawnPlayer::wire(bytes) {
                Ok(f) => Ok(Decoded::SpawnPlayer(f)),
                Err(e) => Err(e),
            },
            Func::AckPlayerDigging => match AckPlayerDigging::wire(bytes) {
                Ok(f) => Ok(Decoded::AckPlayerDigging(f)),
                Err(e) => Err(e),
            },
        }
    }

    /// The name under which a packet of a kind is reported.
    pub open spec fn name(kind: Func) -> Seq<char> {
        match kind {
            Func::Handshake => "HANDSHAKE"@,
            Func::StatusResponse => "STATUS_RESPONSE"@,
            Func::StatusPong => "STATUS_PONG"@,
            Func::StatusRequest => "STATUS_REQUEST"@,
            Func::StatusPing => "STATUS_PING"@,
            Func::Disconnect => "LOGIN_DISCONNECT"@,
            Func::EncRequest => "ENC_REQUEST"@,
            Func::LoginSuccess => "LOGIN_SUCCESS"@,
            Func::SetCompression => "SET_COMPRESSION"@,
            Func::PluginRequest => "PLUGIN_REQ"@,
            Func::LoginStart => "LOGIN_START"@,
            Func::EncResponse => "ENC_RESPONSE"@,
            Func::PluginResponse => "PLUGIN_RESP"@,
            Func::SpawnEntity => "SPAWN_ENTITY"@,
            Func::SpawnXpOrb => "SPAWN_XP_ORB"@,
            Func::SpawnLivingEntity => "SPAWN_LIVING_ENTITY"@,
            Func::SpawnPainting => "SPAWN_PAINTING"@,
            Func::SpawnPlayer => "SPAWN_PLAYER"@,
            Func::AckPlayerDigging => "ACK_PLAYER_DIGGING"@,
        }
    }

    /// The bit patterns of the packet's double-precision coordinates, in
    /// the order of the wire.
    pub open spec fn doubles(self) -> Seq<u64> {
        match self {
            Decoded::SpawnEntity(p) => seq![p.x, p.y, p.z],
            Decoded::SpawnXpOrb(p) => seq![p.x, p.y, p.z],
            Decoded::SpawnLivingEntity(p) => seq![p.x, p.y, p.z],
            Decoded::SpawnPlayer(p) => seq![p.x, p.y, p.z],
            _ => Seq::empty(),
        }
    }

    /// The detail line of the packet, with `coordinates` as the text of its
    /// double-precision coordinates.
    pub open spec fn detail(self, coordinates: Seq<String>) -> Seq<char> {
        match self {
            Decoded::Handshake(p) => Handshake::detail(p),
            Decoded::StatusResponse(p) => StatusResponse::detail(p),
            Decoded::StatusPong(p) => p.detail(),
            Decoded::StatusRequest(p) => p.detail(),
            Decoded::StatusPing(p) => p.detail(),
            Decoded::Disconnect(p) => Disconnect::detail(p),
            Decoded::EncRequest(p) => EncRequest::detail(p),
            Decoded::LoginSuccess(p) => LoginSuccess::detail(p),
            Decoded::SetCompression(p) => p.detail(),
            Decoded::PluginRequest(p) => plugin_detail(p),
            Decoded::LoginStart(p) => LoginStart::detail(p),
            Decoded::EncResponse(p) => EncResponse::detail(p),
            Decoded::PluginResponse(p) => plugin_detail(p),
            Decoded::SpawnEntity(p) => p.detail(coordinates[0]@, coordinates[1]@, coordinates[2]@),
            Decoded::SpawnXpOrb(p) => p.detail(coordinates[0]@, coordinates[1]@, coordinates[2]@),
            Decoded::SpawnLivingEntity(p) => p.detail(coordinates[0]@, coordinates[1]@, coordinates[2]@),
            Decoded::SpawnPainting(p) => p.detail(),
            Decoded::SpawnPlayer(p) => p.detail(coordinates[0]@, coordinates[1]@, coordinates[2]@),
            Decoded::AckPlayerDigging(p) => p.detail(),
        }
    }

    /// Whether a packet of this kind changes the session.
    pub open spec fn mutates(self) -> bool {
        match self {
            Decoded::Handshake(_) => true,
            Decoded::StatusPong(_) => true,
            Decoded::Disconnect(_) => true,
            Decoded::LoginSuccess(_) => true,
            Decoded::SetCompression(_) => true,
            Decoded::EncResponse(_) => true,
            _ => false,
        }
    }

    /// The session after the packet, given the secret that the outside
    /// supplied for an encryption response.
    pub open spec fn updated(self, session: Session, secret: Option<Seq<u8>>) -> Session {
        match self {
            Decoded::Handshake(p) => Session { state: p.next_state, ..session },
            Decoded::StatusPong(_) => Session { state: State::Handshaking, ..session },
            Decoded::Disconnect(_) => Session { state: State::Handshaking, ..session },
            Decoded::LoginSuccess(_) => Session { state: State::Play, ..session },
            Decoded::SetCompression(p) => Session { compress: p.compress(), ..session },
            Decoded::EncResponse(_) => EncResponse::updated(session, secret),
            _ => session,
        }
    }
}

impl Parsable {
    /// The kind of the packet.
    pub fn kind(&self) -> (r: Func)
        ensures
            r == self@.kind(),
    {
        match self {
            Parsable::Handshake(_) => Func::Handshake,
            Parsable::StatusResponse(_) => Func::StatusResponse,
            Parsable::StatusPong(_) => Func::StatusPong,
            Parsable::StatusRequest(_) => Func::StatusRequest,
            Parsable::StatusPing(_) => Func::StatusPing,
            Parsable::Disconnect(_) => Func::Disconnect,
            Parsable::EncRequest(_) => Func::EncRequest,
            Parsable::LoginSuccess(_) => Func::LoginSuccess,
            Parsable::SetCompression(_) => Func::SetCompression,
            Parsable::PluginRequest(_) => Func::PluginRequest,
            Parsable::LoginStart(_) => Func::LoginStart,
            Parsable::EncResponse(_) => Func::EncResponse,
            Parsable::PluginResponse(_) => Func::PluginResponse,
            Parsable::SpawnEntity(_) => Func::SpawnEntity,
            Parsable::SpawnXpOrb(_) => Func::SpawnXpOrb,
            Parsable::SpawnLivingEntity(_) => Func::SpawnLivingEntity,
            Parsable::SpawnPainting(_) => Func::SpawnPainting,
            Parsable::SpawnPlayer(_) => Func::SpawnPlayer,
            Parsable::AckPlayerDigging(_) => Func::AckPlayerDigging,
        }
    }

    /// A packet of the kind `kind` with every field at its zero value.
    pub fn empty(kind: Func) -> (r: Parsable)
        ensures
            r@ == Decoded::zero(kind),
            r@.kind() == kind,
    {
        proof {
            reveal(Decoded::zero);
        }
        match kind {
            Func::Handshake => Parsable::Handshake(Handshake::empty()),
            Func::StatusResponse => Parsable::StatusResponse(StatusResponse::empty()),
            Func::StatusPong => Parsable::StatusPong(StatusPong::empty()),
            Func::StatusRequest => Parsable::StatusRequest(StatusRequest::empty()),
            Func::StatusPing => Parsable::StatusPing(StatusPing::empty()),
            Func::Disconnect => Parsable::Disconnect(Disconnect::empty()),
            Func::EncRequest => Parsable::EncRequest(EncRequest::empty()),
            Func::LoginSuccess => Parsable::LoginSuccess(LoginSuccess::empty()),
            Func::SetCompression => Parsable::SetCompression(SetCompression::empty()),
            Func::PluginRequest => Parsable::PluginRequest(PluginRequest::empty()),
            Func::LoginStart => Parsable::LoginStart(LoginStart::empty()),
            Func::EncResponse => Parsable::EncResponse(EncResponse::empty()),
            Func::PluginResponse => Parsable::PluginResponse(PluginResponse::empty()),
            Func::SpawnEntity => Parsable::SpawnEntity(SpawnEntity::empty()),
            Func::SpawnXpOrb => Parsable::SpawnXpOrb(SpawnXpOrb::empty()),
            Func::SpawnLivingEntity => Parsable::SpawnLivingEntity(SpawnLivingEntity::empty()),
            Func::SpawnPainting => Parsable::SpawnPainting(SpawnPainting::empty()),
            Func::SpawnPlayer => Parsable::SpawnPlayer(SpawnPlayer::empty()),
            Func::AckPlayerDigging => Parsable::AckPlayerDigging(AckPlayerDigging::empty()),
        }
    }

    /// Decodes the fields from a frame's payload. On failure the packet is
    /// left as it was.
    pub fn parse_packet(&mut self, packet: Packet) -> (r: Result<(), DecodeError>)
        ensures
            match Decoded::wire(old(self)@.kind(), packet@) {
                Ok(d) => r is Ok && final(self)@ == d,
                Err(e) => r == Err::<(), DecodeError>(e) && *final(self) == *old(self),
            },
    {
        proof {
            reveal(Decoded::wire);
        }
        match self {
            Parsable::Handshake(p) => p.parse_packet(packet),
            Parsable::StatusResponse(p) => p.parse_packet(packet),
            Parsable::StatusPong(p) => p.parse_packet(packet),
            Parsable::StatusRequest(p) => p.parse_packet(packet),
            Parsable::StatusPing(p) => p.parse_packet(packet),
            Parsable::Disconnect(p) => p.parse_packet(packet),
            Parsable::EncRequest(p) => p.parse_packet(packet),
            Parsable::LoginSuccess(p) => p.parse_packet(packet),
            Parsable::SetCompression(p) => p.parse_packet(packet),
            Parsable::PluginRequest(p) => p.parse_packet(packet),
            Parsable::LoginStart(p) => p.parse_packet(packet),
            Parsable::EncResponse(p) => p.parse_packet(packet),
            Parsable::PluginResponse(p) => p.parse_packet(packet),
            Parsable::SpawnEntity(p) => p.parse_packet(packet),
            Parsable::SpawnXpOrb(p) => p.parse_packet(packet),
            Parsable::SpawnLivingEntity(p) => p.parse_packet(packet),
            Parsable::SpawnPainting(p) => p.parse_packet(packet),
            Parsable::SpawnPlayer(p) => p.parse_packet(packet),
            Parsable::AckPlayerDigging(p) => p.parse_packet(packet),
        }
    }

    /// The bit patterns of the packet's double-precision coordinates, in
    /// the order of the wire.
    pub fn doubles(&self) -> (r: Vec<u64>)
        ensures
            r@ == self@.doubles(),
    {
        let mut r: Vec<u64> = Vec::new();
        match self {
            Parsable::SpawnEntity(p) => {
                r.push(p.x);
                r.push(p.y);
                r.push(p.z);
            },
            Parsable::SpawnXpOrb(p) => {
                r.push(p.x);
                r.push(p.y);
                r.push(p.z);
            },
            Parsable::SpawnLivingEntity(p) => {
                r.push(p.x);
                r.push(p.y);
                r.push(p.z);
            },
            Parsable::SpawnPlayer(p) => {
                r.push(p.x);
                r.push(p.y);
                r.push(p.z);
            },
            _ => {},
        }
        r
    }

    /// The packet's name and its detail line, with `coordinates` as the
    /// text of its double-precision coordinates.
    pub fn get_printable(&self, coordinates: &Vec<String>) -> (r: (&'static str, String))
        requires
            coordinates@.len() == self@.doubles().len(),
        ensures
            r.0@ == Decoded::name(self@.kind()),
            r.1@ == self@.detail(coordinates@),
    {
        match self {
            Parsable::Handshake(p) => p.get_printable(),
            Parsable::StatusResponse(p) => p.get_printable(),
            Parsable::StatusPong(p) => p.get_printable(),
            Parsable::StatusRequest(p) => p.get_printable(),
            Parsable::StatusPing(p) => p.get_printable(),
            Parsable::Disconnect(p) => p.get_printable(),
            Parsable::EncRequest(p) => p.get_printable(),
            Parsable::LoginSuccess(p) => p.get_printable(),
            Parsable::SetCompression(p) => p.get_printable(),
            Parsable::PluginRequest(p) => p.get_printable(),
            Parsable::LoginStart(p) => p.get_printable(),
            Parsable::EncResponse(p) => p.get_printable(),
            Parsable::PluginResponse(p) => p.get_printable(),
            Parsable::SpawnEntity(p) => p.get_printable(
                coordinates[0].as_str(),
                coordinates[1].as_str(),
                coordinates[2].as_str(),
            ),
            Parsable::SpawnXpOrb(p) => p.get_printable(
                coordinates[0].as_str(),
                coordinates[1].as_str(),
                coordinates[2].as_str(),
            ),
            Parsable::SpawnLivingEntity(p) => p.get_printable(
                coordinates[0].as_str(),
                coordinates[1].as_str(),
                coordinates[2].as_str(),
            ),
            Parsable::SpawnPainting(p) => p.get_printable(),
            Parsable::SpawnPlayer(p) => p.get_printable(
                coordinates[0].as_str(),
                coordinates[1].as_str(),
                coordinates[2].as_str(),
            ),
            Parsable::AckPlayerDigging(p) => p.get_printable(),
        }
    }

    /// Whether the packet changes the session.
    pub fn status_updating(&self) -> (r: bool)
        ensures
            r == self@.mutates(),
    {
        match self {
            Parsable::Handshake(p) => p.status_updating(),
            Parsable::StatusPong(p) => p.status_updating(),
            Parsable::Disconnect(p) => p.status_updating(),
            Parsable::LoginSuccess(p) => p.status_updating(),
            Parsable::SetCompression(p) => p.status_updating(),
            Parsable::EncResponse(p) => p.status_updating(),
            _ => false,
        }
    }

    /// Applies the packet's change to the session. Only an encryption
    /// response reads `secret`, and only it can fail.
    pub fn update_status(&self, status: &mut Status, secret: &Option<Vec<u8>>) -> (r: Result<
        (),
        UpdateError,
    >)
        ensures
            final(status)@ == self@.updated(old(status)@, key_bytes(*secret)),
            !(self@ is EncResponse) ==> r is Ok,
    {
        match self {
            Parsable::Handshake(p) => p.update_status(status),
            Parsable::StatusPong(p) => p.update_status(status),
            Parsable::Disconnect(p) => p.update_status(status),
            Parsable::LoginSuccess(p) => p.update_status(status),
            Parsable::SetCompression(p) => p.update_status(status),
            Parsable::EncResponse(p) => p.update_status(status, secret),
            _ => Ok(()),
        }
    }
}

} // verus!
