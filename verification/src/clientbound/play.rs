//! The server's packets of the play phase that are decoded.
//!
//! Coordinates that travel as double-precision numbers are kept as the 64-bit
//! patterns that were on the wire. Their text in a detail line is supplied by
//! the caller, who can turn such a pattern into a number.

use vstd::prelude::*;
use vstd::string::StringExecFns;
use crate::error::DecodeError;
use crate::packet::Packet;
use crate::utils::{
    bool_text, decimal, lower_hex, push_bool, push_decimal, push_hex, push_signed, signed_decimal,
};
use crate::wire::{boolean, byte, double_bits, int32, packed_position, short, uuid, varint};

verus! {

/// An entity other than a living one appears.
#[derive(Clone, Copy, Debug, PartialEq, Eq, Structural)]
pub struct SpawnEntity {
    pub entity_id: i32,
    pub object_uuid: u128,
    pub entity_type: i32,
    pub x: u64,
    pub y: u64,
    pub z: u64,
    pub pitch: u8,
    pub yaw: u8,
    pub data: i32,
    pub velocity_x: i16,
    pub velocity_y: i16,
    pub velocity_z: i16,
}

impl SpawnEntity {
    /// What a payload decodes to: a variable-length entity id, a 128-bit
    /// identifier, a variable-length type, three doubles, pitch and yaw as
    /// bytes, a 32-bit number and three 16-bit velocities.
    #[verifier::opaque]
    pub open spec fn wire(bytes: Seq<u8>) -> Result<SpawnEntity, DecodeError> {
        match varint(bytes) { Err(e) => Err(e), Ok((entity_id, rest)) =>
        match uuid(rest) { Err(e) => Err(e), Ok((object_uuid, rest)) =>
        match varint(rest) { Err(e) => Err(e), Ok((entity_type, rest)) =>
        match double_bits(rest) { Err(e) => Err(e), Ok((x, rest)) =>
        match double_bits(rest) { Err(e) => Err(e), Ok((y, rest)) =>
        match double_bits(rest) { Err(e) => Err(e), Ok((z, rest)) =>
        match byte(rest) { Err(e) => Err(e), Ok((pitch, rest)) =>
        match byte(rest) { Err(e) => Err(e), Ok((yaw, rest)) =>
        match int32(rest) { Err(e) => Err(e), Ok((data, rest)) =>
        match short(rest) { Err(e) => Err(e), Ok((velocity_x, rest)) =>
        match short(rest) { Err(e) => Err(e), Ok((velocity_y, rest)) =>
        match short(rest) { Err(e) => Err(e), Ok((velocity_z, _)) =>
            Ok(SpawnEntity {
                entity_id, object_uuid, entity_type, x, y, z, pitch, yaw, data,
                velocity_x, velocity_y, velocity_z,
            }),
        }}}}}}}}}}}}
    }

    /// The detail line, with `x`, `y` and `z` for the coordinates.
    pub open spec fn detail(self, x: Seq<char>, y: Seq<char>, z: Seq<char>) -> Seq<char> {
        signed_decimal(self.entity_id as int) + " "@ + lower_hex(self.object_uuid as nat) + " "@
            + signed_decimal(self.entity_type as int) + " "@ + x + " "@ + y + " "@ + z + " "@
            + decimal(self.pitch as nat) + " "@ + decimal(self.yaw as nat) + " "@ + signed_decimal(
            self.data as int,
        ) + " "@ + signed_decimal(self.velocity_x as int) + " "@ + signed_decimal(
            self.velocity_y as int,
        ) + " "@ + signed_decimal(self.velocity_z as int)
    }

    /// A packet with every field at its zero value.
    pub fn empty() -> (r: Self)
        ensures
            r == (SpawnEntity {
                entity_id: 0,
                object_uuid: 0,
                entity_type: 0,
                x: 0,
                y: 0,
                z: 0,
                pitch: 0,
                yaw: 0,
                data: 0,
                velocity_x: 0,
                velocity_y: 0,
                velocity_z: 0,
            }),
    {
        Self {
            entity_id: 0,
            object_uuid: 0,
            entity_type: 0,
            x: 0,
            y: 0,
            z: 0,
            pitch: 0,
            yaw: 0,
            data: 0,
            velocity_x: 0,
            velocity_y: 0,
            velocity_z: 0,
        }
    }

    /// Decodes the fields from a frame's payload. On failure the packet is
    /// left as it was.
    pub fn parse_packet(&mut self, packet: Packet) -> (r: Result<(), DecodeError>)
        ensures
            match Self::wire(packet@) {
                Ok(f) => r is Ok && *final(self) == f,
                Err(e) => r == Err::<(), DecodeError>(e) && *final(self) == *old(self),
            },
    {
        proof {
            reveal(SpawnEntity::wire);
        }
        let mut packet = packet;
        let entity_id = packet.decode_varint()?;
        let object_uuid = packet.decode_uuid()?;
        let entity_type = packet.decode_varint()?;
        let x = packet.decode_double()?;
        let y = packet.decode_double()?;
        let z = packet.decode_double()?;
        let pitch = read_byte(&mut packet)?;
        let yaw = read_byte(&mut packet)?;
        let data = packet.decode_int()?;
        let velocity_x = packet.decode_short()?;
        let velocity_y = packet.decode_short()?;
        let velocity_z = packet.decode_short()?;
        *self = Self {
            entity_id,
            object_uuid,
            entity_type,
            x,
            y,
            z,
            pitch,
            yaw,
            data,
            velocity_x,
            velocity_y,
            velocity_z,
        };
        Ok(())
    }

    /// The packet's name and its detail line, with `x`, `y` and `z` as the
    /// text of the coordinates.
    pub fn get_printable(&self, x: &str, y: &str, z: &str) -> (r: (&'static str, String))
        ensures
            r.0@ == "SPAWN_ENTITY"@,
            r.1@ == self.detail(x@, y@, z@),
    {
        let mut out = String::new();
        push_signed(&mut out, self.entity_id as i64);
        out.append(" ");
        push_hex(&mut out, self.object_uuid);
        out.append(" ");
        push_signed(&mut out, self.entity_type as i64);
        out.append(" ");
        out.append(x);
        out.append(" ");
        out.append(y);
        out.append(" ");
        out.append(z);
        out.append(" ");
        push_decimal(&mut out, self.pitch as u128);
        out.append(" ");
        push_decimal(&mut out, self.yaw as u128);
        out.append(" ");
        push_signed(&mut out, self.data as i64);
        out.append(" ");
        push_signed(&mut out, self.velocity_x as i64);
        out.append(" ");
        push_signed(&mut out, self.velocity_y as i64);
        out.append(" ");
        push_signed(&mut out, self.velocity_z as i64);
        ("SPAWN_ENTITY", out)
    }
}

/// An experience orb appears.
#[derive(Clone, Copy, Debug, PartialEq, Eq, Structural)]
pub struct SpawnXpOrb {
    pub entity_id: i32,
    pub x: u64,
    pub y: u64,
    pub z: u64,
    pub count: i16,
}

impl SpawnXpOrb {
    /// What a payload decodes to: a variable-length entity id, three
    /// doubles and a 16-bit count.
    #[verifier::opaque]
    pub open spec fn wire(bytes: Seq<u8>) -> Result<SpawnXpOrb, DecodeError> {
        match varint(bytes) { Err(e) => Err(e), Ok((entity_id, rest)) =>
        match double_bits(rest) { Err(e) => Err(e), Ok((x, rest)) =>
        match double_bits(rest) { Err(e) => Err(e), Ok((y, rest)) =>
        match double_bits(rest) { Err(e) => Err(e), Ok((z, rest)) =>
        match short(rest) { Err(e) => Err(e), Ok((count, _)) =>
            Ok(SpawnXpOrb { entity_id, x, y, z, count }),
        }}}}}
    }

    /// The detail line, with `x`, `y` and `z` for the coordinates.
    pub open spec fn detail(self, x: Seq<char>, y: Seq<char>, z: Seq<char>) -> Seq<char> {
        signed_decimal(self.entity_id as int) + " "@ + x + " "@ + y + " "@ + z + " "@
            + signed_decimal(self.count as int)
    }

    /// A packet with every field at its zero value.
    pub fn empty() -> (r: Self)
        ensures
            r == (SpawnXpOrb { entity_id: 0, x: 0, y: 0, z: 0, count: 0 }),
    {
        Self { entity_id: 0, x: 0, y: 0, z: 0, count: 0 }
    }

    /// Decodes the fields from a frame's payload. On failure the packet is
    /// left as it was.
    pub fn parse_packet(&mut self, packet: Packet) -> (r: Result<(), DecodeError>)
        ensures
            match Self::wire(packet@) {
                Ok(f) => r is Ok && *final(self) == f,
                Err(e) => r == Err::<(), DecodeError>(e) && *final(self) == *old(self),
            },
    {
        proof {
            reveal(SpawnXpOrb::wire);
        }
        let mut packet = packet;
        let entity_id = packet.decode_varint()?;
        let x = packet.decode_double()?;
        let y = packet.decode_double()?;
        let z = packet.decode_double()?;
        let count = packet.decode_short()?;
        *self = Self { entity_id, x, y, z, count };
        Ok(())
    }

    /// The packet's name and its detail line, with `x`, `y` and `z` as the
    /// text of the coordinates.
    pub fn get_printable(&self, x: &str, y: &str, z: &str) -> (r: (&'static str, String))
        ensures
            r.0@ == "SPAWN_XP_ORB"@,
            r.1@ == self.detail(x@, y@, z@),
    {
        let mut out = String::new();
        push_signed(&mut out, self.entity_id as i64);
        out.append(" ");
        out.append(x);
        out.append(" ");
        out.append(y);
        out.append(" ");
        out.append(z);
        out.append(" ");
        push_signed(&mut out, self.count as i64);
        ("SPAWN_XP_ORB", out)
    }
}

/// A living entity appears.
#[derive(Clone, Copy, Debug, PartialEq, Eq, Structural)]
pub struct SpawnLivingEntity {
    pub entity_id: i32,
    pub object_uuid: u128,
    pub entity_type: i32,
    pub x: u64,
    pub y: u64,
    pub z: u64,
    pub yaw: u8,
    pub pitch: u8,
    pub head_pitch: u8,
    pub velocity_x: i16,
    pub velocity_y: i16,
    pub velocity_z: i16,
}

impl SpawnLivingEntity {
    /// What a payload decodes to: a variable-length entity id, a 128-bit
    /// identifier, a variable-length type, three doubles, yaw, pitch and
    /// head pitch as bytes, and three 16-bit velocities.
    #[verifier::opaque]
    pub open spec fn wire(bytes: Seq<u8>) -> Result<SpawnLivingEntity, DecodeError> {
        match varint(bytes) { Err(e) => Err(e), Ok((entity_id, rest)) =>
        match uuid(rest) { Err(e) => Err(e), Ok((object_uuid, rest)) =>
        match varint(rest) { Err(e) => Err(e), Ok((entity_type, rest)) =>
        match double_bits(rest) { Err(e) => Err(e), Ok((x, rest)) =>
        match double_bits(rest) { Err(e) => Err(e), Ok((y, rest)) =>
        match double_bits(rest) { Err(e) => Err(e), Ok((z, rest)) =>
        match byte(rest) { Err(e) => Err(e), Ok((yaw, rest)) =>
        match byte(rest) { Err(e) => Err(e), Ok((pitch, rest)) =>
        match byte(rest) { Err(e) => Err(e), Ok((head_pitch, rest)) =>
        match short(rest) { Err(e) => Err(e), Ok((velocity_x, rest)) =>
        match short(rest) { Err(e) => Err(e), Ok((velocity_y, rest)) =>
        match short(rest) { Err(e) => Err(e), Ok((velocity_z, _)) =>
            Ok(SpawnLivingEntity {
                entity_id, object_uuid, entity_type, x, y, z, yaw, pitch, head_pitch,
                velocity_x, velocity_y, velocity_z,
            }),
        }}}}}}}}}}}}
    }

    /// The detail line, with `x`, `y` and `z` for the coordinates.
    pub open spec fn detail(self, x: Seq<char>, y: Seq<char>, z: Seq<char>) -> Seq<char> {
        signed_decimal(self.entity_id as int) + " "@ + lower_hex(self.object_uuid as nat) + " "@
            + signed_decimal(self.entity_type as int) + " "@ + x + " "@ + y + " "@ + z + " "@
            + decimal(self.yaw as nat) + " "@ + decimal(self.pitch as nat) + " "@ + decimal(
            self.head_pitch as nat,
        ) + " "@ + signed_decimal(self.velocity_x as int) + " "@ + signed_decimal(
            self.velocity_y as int,
        ) + " "@ + signed_decimal(self.velocity_z as int)
    }

    /// A packet with every field at its zero value.
    pub fn empty() -> (r: Self)
        ensures
            r == (SpawnLivingEntity {
                entity_id: 0,
                object_uuid: 0,
                entity_type: 0,
                x: 0,
                y: 0,
                z: 0,
                yaw: 0,
                pitch: 0,
                head_pitch: 0,
                velocity_x: 0,
                velocity_y: 0,
                velocity_z: 0,
            }),
    {
        Self {
            entity_id: 0,
            object_uuid: 0,
            entity_type: 0,
            x: 0,
            y: 0,
            z: 0,
            yaw: 0,
            pitch: 0,
            head_pitch: 0,
            velocity_x: 0,
            velocity_y: 0,
            velocity_z: 0,
        }
    }

    /// Decodes the fields from a frame's payload. On failure the packet is
    /// left as it was.
    pub fn parse_packet(&mut self, packet: Packet) -> (r: Result<(), DecodeError>)
        ensures
            match Self::wire(packet@) {
                Ok(f) => r is Ok && *final(self) == f,
                Err(e) => r == Err::<(), DecodeError>(e) && *final(self) == *old(self),
            },
    {
        proof {
            reveal(SpawnLivingEntity::wire);
        }
        let mut packet = packet;
        let entity_id = packet.decode_varint()?;
        let object_uuid = packet.decode_uuid()?;
        let entity_type = packet.decode_varint()?;
        let x = packet.decode_double()?;
        let y = packet.decode_double()?;
        let z = packet.decode_double()?;
        let yaw = read_byte(&mut packet)?;
        let pitch = read_byte(&mut packet)?;
        let head_pitch = read_byte(&mut packet)?;
        let velocity_x = packet.decode_short()?;
        let velocity_y = packet.decode_short()?;
        let velocity_z = packet.decode_short()?;
        *self = Self {
            entity_id,
            object_uuid,
            entity_type,
            x,
            y,
            z,
            yaw,
            pitch,
            head_pitch,
            velocity_x,
            velocity_y,
            velocity_z,
        };
        Ok(())
    }

    /// The packet's name and its detail line, with `x`, `y` and `z` as the
    /// text of the coordinates.
    pub fn get_printable(&self, x: &str, y: &str, z: &str) -> (r: (&'static str, String))
        ensures
            r.0@ == "SPAWN_LIVING_ENTITY"@,
            r.1@ == self.detail(x@, y@, z@),
    {
        let mut out = String::new();
        push_signed(&mut out, self.entity_id as i64);
        out.append(" ");
        push_hex(&mut out, self.object_uuid);
        out.append(" ");
        push_signed(&mut out, self.entity_type as i64);
        out.append(" ");
        out.append(x);
        out.append(" ");
        out.append(y);
        out.append(" ");
        out.append(z);
        out.append(" ");
        push_decimal(&mut out, self.yaw as u128);
        out.append(" ");
        push_decimal(&mut out, self.pitch as u128);
        out.append(" ");
        push_decimal(&mut out, self.head_pitch as u128);
        out.append(" ");
        push_signed(&mut out, self.velocity_x as i64);
        out.append(" ");
        push_signed(&mut out, self.velocity_y as i64);
        out.append(" ");
        push_signed(&mut out, self.velocity_z as i64);
        ("SPAWN_LIVING_ENTITY", out)
    }
}

/// The side that a painting faces.
#[derive(Clone, Copy, Debug, PartialEq, Eq, Structural)]
pub enum FacingDirection {
    North,
    South,
    East,
    West,
}

impl FacingDirection {
    /// The side that a code on the wire stands for.
    pub open spec fn from_code(code: u8) -> Option<FacingDirection> {
        if code == 0 {
            Some(FacingDirection::South)
        } else if code == 1 {
            Some(FacingDirection::West)
        } else if code == 2 {
            Some(FacingDirection::North)
        } else if code == 3 {
            Some(FacingDirection::East)
        } else {
            None
        }
    }

    /// The name of the side.
    pub open spec fn name(self) -> Seq<char> {
        match self {
            FacingDirection::North => "North"@,
            FacingDirection::South => "South"@,
            FacingDirection::East => "East"@,
            FacingDirection::West => "West"@,
        }
    }

    /// The name of the side, borrowed.
    pub fn as_str(&self) -> (r: &'static str)
        ensures
            r@ == self.name(),
    {
        match self {
            FacingDirection::North => "North",
            FacingDirection::South => "South",
            FacingDirection::East => "East",
            FacingDirection::West => "West",
        }
    }
}

/// A painting appears.
#[derive(Clone, Copy, Debug, PartialEq, Eq, Structural)]
pub struct SpawnPainting {
    pub entity_id: i32,
    pub object_uuid: u128,
    pub motive: i32,
    pub x: i64,
    pub y: i64,
    pub z: i64,
    pub direction: FacingDirection,
}

impl SpawnPainting {
    /// What a payload decodes to: a variable-length entity id, a 128-bit
    /// identifier, a variable-length motive, a packed position, and the
    /// side as one byte.
    #[verifier::opaque]
    pub open spec fn wire(bytes: Seq<u8>) -> Result<SpawnPainting, DecodeError> {
        match varint(bytes) { Err(e) => Err(e), Ok((entity_id, rest)) =>
        match uuid(rest) { Err(e) => Err(e), Ok((object_uuid, rest)) =>
        match varint(rest) { Err(e) => Err(e), Ok((motive, rest)) =>
        match packed_position(rest) { Err(e) => Err(e), Ok((position, rest)) =>
        match byte(rest) { Err(e) => Err(e), Ok((code, _)) =>
        match FacingDirection::from_code(code) {
            None => Err(DecodeError::InvalidEnumValue),
            Some(direction) => Ok(SpawnPainting {
                entity_id, object_uuid, motive,
                x: position.0, y: position.1, z: position.2,
                direction,
            }),
        }}}}}}
    }

    /// The detail line.
    pub open spec fn detail(self) -> Seq<char> {
        signed_decimal(self.entity_id as int) + " "@ + lower_hex(self.object_uuid as nat) + " "@
            + signed_decimal(self.motive as int) + " "@ + signed_decimal(self.x as int) + " "@
            + signed_decimal(self.y as int) + " "@ + signed_decimal(self.z as int) + " "@
            + self.direction.name()
    }

    /// A packet with every field at its zero value.
    pub fn empty() -> (r: Self)
        ensures
            r == (SpawnPainting {
                entity_id: 0,
                object_uuid: 0,
                motive: 0,
                x: 0,
                y: 0,
                z: 0,
                direction: FacingDirection::North,
            }),
    {
        Self {
            entity_id: 0,
            object_uuid: 0,
            motive: 0,
            x: 0,
            y: 0,
            z: 0,
            direction: FacingDirection::North,
        }
    }

    /// Decodes the fields from a frame's payload. On failure the packet is
    /// left as it was.
    pub fn parse_packet(&mut self, packet: Packet) -> (r: Result<(), DecodeError>)
        ensures
            match Self::wire(packet@) {
                Ok(f) => r is Ok && *final(self) == f,
                Err(e) => r == Err::<(), DecodeError>(e) && *final(self) == *old(self),
            },
    {
        proof {
            reveal(SpawnPainting::wire);
        }
        let mut packet = packet;
        let entity_id = packet.decode_varint()?;
        let object_uuid = packet.decode_uuid()?;
        let motive = packet.decode_varint()?;
        let position = packet.decode_position()?;
        let direction = match read_byte(&mut packet)? {
            0x00 => FacingDirection::South,
            0x01 => FacingDirection::West,
            0x02 => FacingDirection::North,
            0x03 => FacingDirection::East,
            _ => { return Err(DecodeError::InvalidEnumValue); },
        };
        *self = Self {
            entity_id,
            object_uuid,
            motive,
            x: position.0,
            y: position.1,
            z: position.2,
            direction,
        };
        Ok(())
    }

    /// The packet's name and its detail line.
    pub fn get_printable(&self) -> (r: (&'static str, String))
        ensures
            r.0@ == "SPAWN_PAINTING"@,
            r.1@ == self.detail(),
    {
        let mut out = String::new();
        push_signed(&mut out, self.entity_id as i64);
        out.append(" ");
        push_hex(&mut out, self.object_uuid);
        out.append(" ");
        push_signed(&mut out, self.motive as i64);
        out.append(" ");
        push_signed(&mut out, self.x);
        out.append(" ");
        push_signed(&mut out, self.y);
        out.append(" ");
        push_signed(&mut out, self.z);
        out.append(" ");
        out.append(self.direction.as_str());
        ("SPAWN_PAINTING", out)
    }
}

/// Another player appears.
#[derive(Clone, Copy, Debug, PartialEq, Eq, Structural)]
pub struct SpawnPlayer {
    pub entity_id: i32,
    pub player_uuid: u128,
    pub x: u64,
    pub y: u64,
    pub z: u64,
    pub yaw: u8,
    pub pitch: u8,
}

impl SpawnPlayer {
    /// What a payload decodes to: a variable-length entity id, the player's
    /// 128-bit identifier, three doubles, and yaw and pitch as bytes.
    #[verifier::opaque]
    pub open spec fn wire(bytes: Seq<u8>) -> Result<SpawnPlayer, DecodeError> {
        match varint(bytes) { Err(e) => Err(e), Ok((entity_id, rest)) =>
        match uuid(rest) { Err(e) => Err(e), Ok((player_uuid, rest)) =>
        match double_bits(rest) { Err(e) => Err(e), Ok((x, rest)) =>
        match double_bits(rest) { Err(e) => Err(e), Ok((y, rest)) =>
        match double_bits(rest) { Err(e) => Err(e), Ok((z, rest)) =>
        match byte(rest) { Err(e) => Err(e), Ok((yaw, rest)) =>
        match byte(rest) { Err(e) => Err(e), Ok((pitch, _)) =>
            Ok(SpawnPlayer { entity_id, player_uuid, x, y, z, yaw, pitch }),
        }}}}}}}
    }

    /// The detail line, with `x`, `y` and `z` for the coordinates.
    pub open spec fn detail(self, x: Seq<char>, y: Seq<char>, z: Seq<char>) -> Seq<char> {
        signed_decimal(self.entity_id as int) + " "@ + lower_hex(self.player_uuid as nat) + " "@
            + x + " "@ + y + " "@ + z + " "@ + decimal(self.yaw as nat) + " "@ + decimal(
            self.pitch as nat,
        )
    }

    /// A packet with every field at its zero value.
    pub fn empty() -> (r: Self)
        ensures
            r == (SpawnPlayer { entity_id: 0, player_uuid: 0, x: 0, y: 0, z: 0, yaw: 0, pitch: 0 }),
    {
        Self { entity_id: 0, player_uuid: 0, x: 0, y: 0, z: 0, yaw: 0, pitch: 0 }
    }

    /// Decodes the fields from a frame's payload. On failure the packet is
    /// left as it was.
    pub fn parse_packet(&mut self, packet: Packet) -> (r: Result<(), DecodeError>)
        ensures
            match Self::wire(packet@) {
                Ok(f) => r is Ok && *final(self) == f,
                Err(e) => r == Err::<(), DecodeError>(e) && *final(self) == *old(self),
            },
    {
        proof {
            reveal(SpawnPlayer::wire);
        }
        let mut packet = packet;
        let entity_id = packet.decode_varint()?;
        let player_uuid = packet.decode_uuid()?;
        let x = packet.decode_double()?;
        let y = packet.decode_double()?;
        let z = packet.decode_double()?;
        let yaw = read_byte(&mut packet)?;
        let pitch = read_byte(&mut packet)?;
        *self = Self { entity_id, player_uuid, x, y, z, yaw, pitch };
        Ok(())
    }

    /// The packet's name and its detail line, with `x`, `y` and `z` as the
    /// text of the coordinates.
    pub fn get_printable(&self, x: &str, y: &str, z: &str) -> (r: (&'static str, String))
        ensures
            r.0@ == "SPAWN_PLAYER"@,
            r.1@ == self.detail(x@, y@, z@),
    {
        let mut out = String::new();
        push_signed(&mut out, self.entity_id as i64);
        out.append(" ");
        push_hex(&mut out, self.player_uuid);
        out.append(" ");
        out.append(x);
        out.append(" ");
        out.append(y);
        out.append(" ");
        out.append(z);
        out.append(" ");
        push_decimal(&mut out, self.yaw as u128);
        out.append(" ");
        push_decimal(&mut out, self.pitch as u128);
        ("SPAWN_PLAYER", out)
    }
}

/// How far the digging of a block has come.
#[derive(Clone, Copy, Debug, PartialEq, Eq, Structural)]
pub enum DiggingStatus {
    Started,
    Cancelled,
    Finished,
}

impl DiggingStatus {
    /// The status that a code on the wire stands for.
    pub open spec fn from_code(code: i32) -> Option<DiggingStatus> {
        if code == 0 {
            Some(DiggingStatus::Started)
        } else if code == 1 {
            Some(DiggingStatus::Cancelled)
        } else if code == 2 {
            Some(DiggingStatus::Finished)
        } else {
            None
        }
    }

    /// The name of the status.
    pub open spec fn name(self) -> Seq<char> {
        match self {
            DiggingStatus::Started => "Started"@,
            DiggingStatus::Cancelled => "Cancelled"@,
            DiggingStatus::Finished => "Finished"@,
        }
    }

    /// The name of the status, borrowed.
    pub fn as_str(&self) -> (r: &'static str)
        ensures
            r@ == self.name(),
    {
        match self {
            DiggingStatus::Started => "Started",
            DiggingStatus::Cancelled => "Cancelled",
            DiggingStatus::Finished => "Finished",
        }
    }
}

/// The server acknowledges that the player digs.
#[derive(Clone, Copy, Debug, PartialEq, Eq, Structural)]
pub struct AckPlayerDigging {
    pub x: i64,
    pub y: i64,
    pub z: i64,
    pub block: i32,
    pub status: DiggingStatus,
    pub successful: bool,
}

impl AckPlayerDigging {
    /// What a payload decodes to: a packed position, a variable-length
    /// block, the status as a variable-length code, and a boolean.
    #[verifier::opaque]
    pub open spec fn wire(bytes: Seq<u8>) -> Result<AckPlayerDigging, DecodeError> {
        match packed_position(bytes) { Err(e) => Err(e), Ok((position, rest)) =>
        match varint(rest) { Err(e) => Err(e), Ok((block, rest)) =>
        match varint(rest) { Err(e) => Err(e), Ok((code, rest)) =>
        match DiggingStatus::from_code(code) {
            None => Err(DecodeError::InvalidEnumValue),
            Some(status) =>
        match boolean(rest) { Err(e) => Err(e), Ok((successful, _)) =>
            Ok(AckPlayerDigging {
                x: position.0, y: position.1, z: position.2,
                block, status, successful,
            }),
        }}}}}
    }

    /// The detail line.
    pub open spec fn detail(self) -> Seq<char> {
        signed_decimal(self.x as int) + " "@ + signed_decimal(self.y as int) + " "@
            + signed_decimal(self.z as int) + " "@ + signed_decimal(self.block as int) + " "@
            + self.status.name() + " "@ + bool_text(self.successful)
    }

    /// A packet with every field at its zero value.
    pub fn empty() -> (r: Self)
        ensures
            r == (AckPlayerDigging {
                x: 0,
                y: 0,
                z: 0,
                block: 0,
                status: DiggingStatus::Started,
                successful: false,
            }),
    {
        Self { x: 0, y: 0, z: 0, block: 0, status: DiggingStatus::Started, successful: false }
    }

    /// Decodes the fields from a frame's payload. On failure the packet is
    /// left as it was.
    pub fn parse_packet(&mut self, packet: Packet) -> (r: Result<(), DecodeError>)
        ensures
            match Self::wire(packet@) {
                Ok(f) => r is Ok && *final(self) == f,
                Err(e) => r == Err::<(), DecodeError>(e) && *final(self) == *old(self),
            },
    {
        proof {
            reveal(AckPlayerDigging::wire);
        }
        let mut packet = packet;
        let position = packet.decode_position()?;
        let block = packet.decode_varint()?;
        let status = match packet.decode_varint()? {
            0x00 => DiggingStatus::Started,
            0x01 => DiggingStatus::Cancelled,
            0x02 => DiggingStatus::Finished,
            _ => { return Err(DecodeError::InvalidEnumValue); },
        };
        let successful = packet.decode_bool()?;
        *self = Self { x: position.0, y: position.1, z: position.2, block, status, successful };
        Ok(())
    }

    /// The packet's name and its detail line.
    pub fn get_printable(&self) -> (r: (&'static str, String))
        ensures
            r.0@ == "ACK_PLAYER_DIGGING"@,
            r.1@ == self.detail(),
    {
        let mut out = String::new();
        push_signed(&mut out, self.x);
        out.append(" ");
        push_signed(&mut out, self.y);
        out.append(" ");
        push_signed(&mut out, self.z);
        out.append(" ");
        push_signed(&mut out, self.block as i64);
        out.append(" ");
        out.append(self.status.as_str());
        out.append(" ");
        push_bool(&mut out, self.successful);
        ("ACK_PLAYER_DIGGING", out)
    }
}

/// Removes one byte from the head of the packet and returns it.
fn read_byte(packet: &mut Packet) -> (r: Result<u8, DecodeError>)
    ensures
        match byte(old(packet)@) {
            Ok((b, rest)) => r == Ok::<u8, DecodeError>(b) && final(packet)@ == rest,
            Err(e) => r == Err::<u8, DecodeError>(e) && final(packet)@ == old(packet)@,
        },
{
    let bytes = packet.read(1)?;
    Ok(bytes[0])
}

} // verus!
