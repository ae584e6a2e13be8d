//! The byte buffer that frames and fields are decoded from.

use vstd::prelude::*;
use crate::error::DecodeError;
use crate::wire::{
    be_value, boolean, consumes, double_bits, int32, long,
    packed_position, radix, radix_values, run, short, signed, span, span_monotonic, span_values, text,
    ushort, uuid, varint, varint_groups, varlong,
};
use vstd::slice::{slice_subrange, slice_to_vec};
use vstd::utf8::{decode_utf8, valid_utf8};

verus! {

/// A run of bytes that is filled at the tail and consumed from the head.
#[derive(Debug)]
pub struct Packet {
    data: Vec<u8>,
}

impl View for Packet {
    type V = Seq<u8>;

    closed spec fn view(&self) -> Seq<u8> {
        self.data@
    }
}

impl Packet {
    /// An empty buffer.
    pub fn new() -> (r: Packet)
        ensures
            r@ == Seq::<u8>::empty(),
    {
        Packet { data: Vec::new() }
    }

    /// A buffer that holds `packet_data`.
    pub fn from(packet_data: Vec<u8>) -> (r: Packet)
        ensures
            r@ == packet_data@,
    {
        Packet { data: packet_data }
    }

    /// Appends one byte.
    pub fn push(&mut self, data: u8)
        ensures
            final(self)@ == old(self)@.push(data),
    {
        self.data.push(data)
    }

    /// Appends a chunk of bytes.
    pub fn push_vec(&mut self, data: Vec<u8>)
        ensures
            final(self)@ == old(self)@ + data@,
    {
        let mut data = data;
        self.data.append(&mut data)
    }

    /// The number of bytes held.
    pub fn len(&self) -> (r: usize)
        ensures
            r == self@.len(),
    {
        self.data.len()
    }

    /// The bytes held, borrowed.
    pub fn get_slice(&self) -> (r: &[u8])
        ensures
            r@ == self@,
    {
        self.data.as_slice()
    }

    /// The bytes held, copied.
    pub fn get_vec(&self) -> (r: Vec<u8>)
        ensures
            r@ == self@,
    {
        self.data.clone()
    }

    /// Drops every byte.
    pub fn clear(&mut self)
        ensures
            final(self)@ == Seq::<u8>::empty(),
    {
        self.data = Vec::new();
    }

    /// Removes the first `amount` bytes and returns them. A buffer that holds
    /// fewer is left as it is.
    pub fn read(&mut self, amount: usize) -> (r: Result<Vec<u8>, DecodeError>)
        ensures
            amount <= old(self)@.len() ==> (r matches Ok(v) && v@ == old(self)@.take(
                amount as int,
            ) && final(self)@ == old(self)@.skip(amount as int)),
            amount > old(self)@.len() ==> r == Err::<Vec<u8>, DecodeError>(
                DecodeError::InsufficientData,
            ) && final(self)@ == old(self)@,
    {
        if self.data.len() < amount {
            return Err(DecodeError::InsufficientData);
        }
        let mut rest = self.data.split_off(amount);
        std::mem::swap(&mut self.data, &mut rest);
        Ok(rest)
    }

    /// Replaces the bytes held by `value`.
    pub fn set(&mut self, value: Vec<u8>)
        ensures
            final(self)@ == value@,
    {
        self.data = value;
    }

    /// Decodes a 32-bit variable-length integer from the head.
    pub fn decode_varint(&mut self) -> (r: Result<i32, DecodeError>)
        ensures
            consumes(old(self)@, final(self)@, r, varint(old(self)@)),
    {
        match scan_groups(self.data.as_slice(), 5) {
            Err(e) => Err(e),
            Ok((v, n)) => {
                let low = (v % 0x1_0000_0000) as u32;
                let _ = self.read(n);
                Ok(signed_32(low))
            },
        }
    }

    /// Decodes a 64-bit variable-length integer from the head.
    pub fn decode_varlong(&mut self) -> (r: Result<i64, DecodeError>)
        ensures
            consumes(old(self)@, final(self)@, r, varlong(old(self)@)),
    {
        match scan_groups(self.data.as_slice(), 10) {
            Err(e) => Err(e),
            Ok((v, n)) => {
                let low = (v % 0x1_0000_0000_0000_0000) as u64;
                let _ = self.read(n);
                Ok(signed_64(low))
            },
        }
    }

    /// Removes the first `count` bytes and returns them, where the count was
    /// read from the wire. A count that is negative or larger than the buffer
    /// is `InsufficientData`, and the buffer is left as it is.
    pub fn read_run(&mut self, count: i32) -> (r: Result<Vec<u8>, DecodeError>)
        ensures
            match run(count, old(self)@) {
                Ok((bytes, rest)) => r matches Ok(v) && v@ == bytes && final(self)@ == rest,
                Err(e) => r == Err::<Vec<u8>, DecodeError>(e) && final(self)@ == old(self)@,
            },
    {
        if count < 0 {
            return Err(DecodeError::InsufficientData);
        }
        self.read(count as usize)
    }

    /// Decodes a counted UTF-8 string from the head.
    pub fn decode_string(&mut self) -> (r: Result<String, DecodeError>)
        ensures
            match text(old(self)@) {
                Ok((chars, rest)) => r matches Ok(s) && s@ == chars && final(self)@ == rest,
                Err(e) => r == Err::<String, DecodeError>(e) && final(self)@ == old(self)@,
            },
    {
        let (count, n) = match scan_groups(self.data.as_slice(), 5) {
            Err(e) => { return Err(e); },
            Ok((v, n)) => (signed_32((v % 0x1_0000_0000) as u32), n),
        };
        if count < 0 || self.data.len() - n < count as usize {
            return Err(DecodeError::InsufficientData);
        }
        let run = slice_to_vec(slice_subrange(self.data.as_slice(), n, n + count as usize));
        proof {
            let rest = self@.skip(n as int);
            assert(run@ == rest.take(count as int));
            assert(self@.skip(n + count) == rest.skip(count as int));
        }
        match string_from_utf8(run) {
            None => Err(DecodeError::InvalidUtf8),
            Some(s) => {
                let _ = self.read(n + count as usize);
                Ok(s)
            },
        }
    }

    /// Decodes a big-endian unsigned 16-bit number from the head.
    pub fn decode_ushort(&mut self) -> (r: Result<u16, DecodeError>)
        ensures
            consumes(old(self)@, final(self)@, r, ushort(old(self)@)),
    {
        let bytes = self.read(2)?;
        let v = be_fold(bytes.as_slice());
        proof {
            span_values();
        }
        Ok(v as u16)
    }

    /// Decodes a big-endian signed 64-bit number from the head.
    pub fn decode_long(&mut self) -> (r: Result<i64, DecodeError>)
        ensures
            consumes(old(self)@, final(self)@, r, long(old(self)@)),
    {
        let bytes = self.read(8)?;
        let v = be_fold(bytes.as_slice());
        proof {
            span_values();
        }
        Ok(signed_64(v as u64))
    }

    /// Decodes a boolean from the head: one byte, 0 or 1.
    pub fn decode_bool(&mut self) -> (r: Result<bool, DecodeError>)
        ensures
            consumes(old(self)@, final(self)@, r, boolean(old(self)@)),
    {
        if self.data.len() < 1 {
            return Err(DecodeError::InsufficientData);
        }
        let b = self.data[0];
        if b > 1 {
            return Err(DecodeError::InvalidBoolEncoding);
        }
        let _ = self.read(1);
        Ok(b == 1)
    }

    /// Decodes a big-endian 128-bit identifier from the head.
    pub fn decode_uuid(&mut self) -> (r: Result<u128, DecodeError>)
        ensures
            consumes(old(self)@, final(self)@, r, uuid(old(self)@)),
    {
        let bytes = self.read(16)?;
        let v = be_fold(bytes.as_slice());
        proof {
            span_values();
        }
        Ok(v)
    }

    /// Decodes the eight bytes of a big-endian double-precision number from
    /// the head and returns them as the 64-bit pattern that they spell.
    pub fn decode_double(&mut self) -> (r: Result<u64, DecodeError>)
        ensures
            consumes(old(self)@, final(self)@, r, double_bits(old(self)@)),
    {
        let bytes = self.read(8)?;
        let v = be_fold(bytes.as_slice());
        proof {
            span_values();
        }
        Ok(v as u64)
    }

    /// Decodes a big-endian signed 32-bit number from the head.
    pub fn decode_int(&mut self) -> (r: Result<i32, DecodeError>)
        ensures
            consumes(old(self)@, final(self)@, r, int32(old(self)@)),
    {
        let bytes = self.read(4)?;
        let v = be_fold(bytes.as_slice());
        proof {
            span_values();
        }
        Ok(signed_32(v as u32))
    }

    /// Decodes a big-endian signed 16-bit number from the head.
    pub fn decode_short(&mut self) -> (r: Result<i16, DecodeError>)
        ensures
            consumes(old(self)@, final(self)@, r, short(old(self)@)),
    {
        let bytes = self.read(2)?;
        let v = be_fold(bytes.as_slice());
        proof {
            span_values();
        }
        Ok(signed_16(v as u16))
    }

    /// Decodes a packed position from the head: eight bytes that hold X in
    /// the top 26 bits, Z in the next 26 and Y in the low 12.
    pub fn decode_position(&mut self) -> (r: Result<(i64, i64, i64), DecodeError>)
        ensures
            consumes(old(self)@, final(self)@, r, packed_position(old(self)@)),
    {
        let bytes = self.read(8)?;
        let v = be_fold(bytes.as_slice());
        proof {
            span_values();
        }
        let val = v as u64;
        let x = extend(val / 0x40_0000_0000, 0x400_0000);
        let y = extend(val % 0x1000, 0x1000);
        let z = extend((val / 0x1000) % 0x400_0000, 0x400_0000);
        Ok((x, y, z))
    }
}

/// `String::from_utf8`: the bytes become a string exactly when they are
/// UTF-8, and the string then holds the characters that they encode.
#[verifier::external_body]
pub(crate) fn string_from_utf8(bytes: Vec<u8>) -> (r: Option<String>)
    ensures
        r is Some <==> valid_utf8(bytes@),
        r matches Some(s) ==> s@ == decode_utf8(bytes@),
{
    match String::from_utf8(bytes) {
        Ok(s) => Some(s),
        Err(_) => None,
    }
}

/// Reads the seven-bit groups at the head of `data` without consuming them.
fn scan_groups(data: &[u8], max: usize) -> (r: Result<(u128, usize), DecodeError>)
    requires
        max <= 10,
    ensures
        match varint_groups(data@, max as nat) {
            Ok((v, n)) => r == Ok::<(u128, usize), DecodeError>((v as u128, n as usize)) && v
                < 0x40_0000_0000_0000_0000 && 1 <= n <= max && n <= data@.len(),
            Err(e) => r == Err::<(u128, usize), DecodeError>(e),
        },
{
    let mut acc: u128 = 0;
    let mut scale: u128 = 1;
    let mut i: usize = 0;
    proof {
        radix_values();
        assert(data@.skip(0) == data@);
    }
    loop
        invariant
            max <= 10,
            i <= max,
            i <= data@.len(),
            scale == radix(i as nat),
            acc < scale,
            varint_groups(data@, max as nat) == shifted(
                acc as nat,
                i as nat,
                varint_groups(data@.skip(i as int), (max - i) as nat),
            ),
        decreases max - i,
    {
        proof {
            radix_values();
            radix_monotonic(i as nat, 10);
        }
        if i >= data.len() {
            return Err(DecodeError::InsufficientData);
        }
        if i >= max {
            return Err(DecodeError::MalformedVarInt);
        }
        let b = data[i];
        proof {
            radix_monotonic((i + 1) as nat, 10);
            assert(radix((i + 1) as nat) == 128 * radix(i as nat));
        }
        if b < 128 {
            assert(acc + radix(i as nat) * b < radix((i + 1) as nat)) by (nonlinear_arith)
                requires
                    acc < radix(i as nat),
                    b < 128,
                    radix((i + 1) as nat) == 128 * radix(i as nat),
            ;
            assert(b as u128 * scale == radix(i as nat) * b) by (nonlinear_arith)
                requires
                    scale == radix(i as nat),
                    b < 128,
                    scale <= 0x40_0000_0000_0000_0000,
            ;
            return Ok((acc + b as u128 * scale, i + 1));
        }
        proof {
            shifted_step(acc as nat, i as nat, data@, max as nat);
            assert((b - 128) as u128 * scale == (b - 128) * radix(i as nat)) by (nonlinear_arith)
                requires
                    scale == radix(i as nat),
                    128 <= b < 256,
                    scale <= 0x40_0000_0000_0000_0000,
            ;
            assert(acc + (b - 128) * radix(i as nat) < 128 * radix(i as nat)) by (nonlinear_arith)
                requires
                    acc < radix(i as nat),
                    128 <= b < 256,
            ;
        }
        acc = acc + (b - 128) as u128 * scale;
        scale = scale * 128;
        i = i + 1;
    }
}

/// A read of groups that started `i` bytes in, seen from the start: the
/// value that the first `i` groups gave is added below it.
spec fn shifted(acc: nat, i: nat, r: Result<(nat, nat), DecodeError>) -> Result<
    (nat, nat),
    DecodeError,
> {
    match r {
        Ok((v, n)) => Ok((acc + radix(i) * v, n + i)),
        Err(e) => Err(e),
    }
}

proof fn shifted_step(acc: nat, i: nat, bytes: Seq<u8>, max: nat)
    requires
        i < max,
        i < bytes.len(),
        bytes[i as int] >= 128,
    ensures
        shifted(acc, i, varint_groups(bytes.skip(i as int), (max - i) as nat)) == shifted(
            acc + (bytes[i as int] - 128) as nat * radix(i),
            i + 1,
            varint_groups(bytes.skip(i as int + 1), (max - i - 1) as nat),
        ),
{
    let here = bytes.skip(i as int);
    assert(here.skip(1) == bytes.skip(i as int + 1));
    assert(here[0] == bytes[i as int]);
    let c = (bytes[i as int] - 128) as nat;
    if let Ok((v, n)) = varint_groups(bytes.skip(i as int + 1), (max - i - 1) as nat) {
        assert(radix(i + 1) == 128 * radix(i));
        assert(acc + radix(i) * (c + 128 * v) == acc + c * radix(i) + radix(i + 1) * v)
            by (nonlinear_arith)
            requires
                radix(i + 1) == 128 * radix(i),
        ;
    }
}

proof fn radix_monotonic(i: nat, j: nat)
    requires
        i <= j,
    ensures
        radix(i) <= radix(j),
    decreases j,
{
    if i < j {
        radix_monotonic(i, (j - 1) as nat);
    }
}

/// Folds at most sixteen bytes into the number that they spell.
fn be_fold(bytes: &[u8]) -> (r: u128)
    requires
        bytes@.len() <= 16,
    ensures
        r == be_value(bytes@),
        r < span(bytes@.len()),
{
    let mut acc: u128 = 0;
    let mut i: usize = 0;
    proof {
        span_values();
    }
    while i < bytes.len()
        invariant
            i <= bytes@.len() <= 16,
            acc == be_value(bytes@.take(i as int)),
            acc < span(i as nat),
        decreases bytes@.len() - i,
    {
        proof {
            span_values();
            span_monotonic((i + 1) as nat, 16);
            assert(span((i + 1) as nat) == 256 * span(i as nat));
            assert(bytes@.take(i + 1).drop_last() == bytes@.take(i as int));
        }
        acc = acc * 256 + bytes[i] as u128;
        i = i + 1;
    }
    proof {
        assert(bytes@.take(i as int) == bytes@);
    }
    acc
}

/// The two's-complement reading of 16 bits.
fn signed_16(v: u16) -> (r: i16)
    ensures
        r == signed(v as nat, 0x1_0000),
{
    if v < 0x8000 {
        v as i16
    } else {
        (v as i32 - 0x1_0000) as i16
    }
}

/// The two's-complement reading of 32 bits.
fn signed_32(v: u32) -> (r: i32)
    ensures
        r == signed(v as nat, 0x1_0000_0000),
{
    if v < 0x8000_0000 {
        v as i32
    } else {
        (v as i64 - 0x1_0000_0000) as i32
    }
}

/// The two's-complement reading of 64 bits.
fn signed_64(v: u64) -> (r: i64)
    ensures
        r == signed(v as nat, 0x1_0000_0000_0000_0000),
{
    if v < 0x8000_0000_0000_0000 {
        v as i64
    } else {
        (v as i128 - 0x1_0000_0000_0000_0000) as i64
    }
}

/// The two's-complement reading of a field that is narrower than 64 bits.
fn extend(v: u64, modulus: u64) -> (r: i64)
    requires
        v < modulus <= 0x8000_0000,
    ensures
        r == signed(v as nat, modulus as nat),
{
    if 2 * v < modulus {
        v as i64
    } else {
        v as i64 - modulus as i64
    }
}

} // verus!
