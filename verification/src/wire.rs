//! The wire format as mathematics: what a run of bytes means as a
//! variable-length integer or as a big-endian number, the encodings that
//! produce such runs, and the proofs that decoding inverts encoding.

use vstd::prelude::*;
use crate::error::DecodeError;

verus! {

/// 128 to the power `i`: the weight of the `i`-th seven-bit group.
pub open spec fn radix(i: nat) -> nat
    decreases i,
{
    if i == 0 {
        1
    } else {
        128 * radix((i - 1) as nat)
    }
}

/// 256 to the power `i`: the number of values that `i` bytes can hold.
pub open spec fn span(i: nat) -> nat
    decreases i,
{
    if i == 0 {
        1
    } else {
        256 * span((i - 1) as nat)
    }
}

/// The two's-complement reading of `v`, an unsigned number below `modulus`.
pub open spec fn signed(v: nat, modulus: nat) -> int {
    if 2 * v < modulus {
        v as int
    } else {
        v - modulus
    }
}

/// The unsigned number below `modulus` whose two's-complement reading is `x`.
pub open spec fn unsigned(x: int, modulus: nat) -> nat {
    if x >= 0 {
        x as nat
    } else {
        (x + modulus) as nat
    }
}

/// The seven-bit groups at the head of `bytes`, least significant group
/// first, where at most `max` bytes may carry them. The result is the
/// accumulated unsigned value and the number of bytes that hold it. A byte
/// below 128 ends the number. Running out of bytes is `InsufficientData`; a
/// byte beyond the `max`-th is `MalformedVarInt`.
pub open spec fn varint_groups(bytes: Seq<u8>, max: nat) -> Result<(nat, nat), DecodeError>
    decreases max,
{
    if bytes.len() == 0 {
        Err(DecodeError::InsufficientData)
    } else if max == 0 {
        Err(DecodeError::MalformedVarInt)
    } else if bytes[0] < 128 {
        Ok((bytes[0] as nat, 1))
    } else {
        match varint_groups(bytes.skip(1), (max - 1) as nat) {
            Ok((v, n)) => Ok(((bytes[0] - 128) as nat + 128 * v, n + 1)),
            Err(e) => Err(e),
        }
    }
}

/// The 32-bit variable-length integer at the head of `bytes`, and the bytes
/// that follow it. The groups are read as an unsigned number, cut to 32 bits
/// and taken as two's complement.
pub open spec fn varint(bytes: Seq<u8>) -> Result<(i32, Seq<u8>), DecodeError> {
    match varint_groups(bytes, 5) {
        Ok((v, n)) => Ok(
            (signed(v % 0x1_0000_0000, 0x1_0000_0000) as i32, bytes.skip(n as int)),
        ),
        Err(e) => Err(e),
    }
}

/// The 64-bit variable-length integer at the head of `bytes`, and the bytes
/// that follow it.
pub open spec fn varlong(bytes: Seq<u8>) -> Result<(i64, Seq<u8>), DecodeError> {
    match varint_groups(bytes, 10) {
        Ok((v, n)) => Ok(
            (
                signed(v % 0x1_0000_0000_0000_0000, 0x1_0000_0000_0000_0000) as i64,
                bytes.skip(n as int),
            ),
        ),
        Err(e) => Err(e),
    }
}

/// The shortest run of seven-bit groups that holds `v`.
pub open spec fn encode_groups(v: nat) -> Seq<u8>
    decreases v,
{
    if v < 128 {
        seq![v as u8]
    } else {
        seq![(128 + v % 128) as u8] + encode_groups(v / 128)
    }
}

/// The encoding of `x` as a 32-bit variable-length integer.
pub open spec fn encode_varint(x: i32) -> Seq<u8> {
    encode_groups(unsigned(x as int, 0x1_0000_0000))
}

/// The encoding of `x` as a 64-bit variable-length integer.
pub open spec fn encode_varlong(x: i64) -> Seq<u8> {
    encode_groups(unsigned(x as int, 0x1_0000_0000_0000_0000))
}

/// The number that `bytes` spell in base 256, most significant byte first.
pub open spec fn be_value(bytes: Seq<u8>) -> nat
    decreases bytes.len(),
{
    if bytes.len() == 0 {
        0
    } else {
        256 * be_value(bytes.drop_last()) + bytes.last() as nat
    }
}

/// The `n` bytes that spell `v` in base 256, most significant byte first.
pub open spec fn be_bytes(v: nat, n: nat) -> Seq<u8>
    decreases n,
{
    if n == 0 {
        Seq::empty()
    } else {
        be_bytes(v / 256, (n - 1) as nat).push((v % 256) as u8)
    }
}

/// The three coordinates packed into a 64-bit number: X in the top 26 bits,
/// Z in the 26 bits below them, Y in the low 12 bits, each one a
/// two's-complement number of its own width.
pub open spec fn unpack_position(v: nat) -> (i64, i64, i64) {
    (
        signed(v / 0x40_0000_0000, 0x400_0000) as i64,
        signed(v % 0x1000, 0x1000) as i64,
        signed((v / 0x1000) % 0x400_0000, 0x400_0000) as i64,
    )
}

/// The big-endian number in the first `n` bytes of `bytes`, and the bytes
/// that follow them.
pub open spec fn fixed(bytes: Seq<u8>, n: nat) -> Result<(nat, Seq<u8>), DecodeError> {
    if bytes.len() < n {
        Err(DecodeError::InsufficientData)
    } else {
        Ok((be_value(bytes.take(n as int)), bytes.skip(n as int)))
    }
}

/// The byte at the head of `bytes`, and the bytes that follow it.
pub open spec fn byte(bytes: Seq<u8>) -> Result<(u8, Seq<u8>), DecodeError> {
    if bytes.len() < 1 {
        Err(DecodeError::InsufficientData)
    } else {
        Ok((bytes[0], bytes.skip(1)))
    }
}

/// The unsigned 16-bit number at the head of `bytes`.
pub open spec fn ushort(bytes: Seq<u8>) -> Result<(u16, Seq<u8>), DecodeError> {
    match fixed(bytes, 2) {
        Ok((v, n)) => Ok((v as u16, n)),
        Err(e) => Err(e),
    }
}

/// The signed 16-bit number at the head of `bytes`.
pub open spec fn short(bytes: Seq<u8>) -> Result<(i16, Seq<u8>), DecodeError> {
    match fixed(bytes, 2) {
        Ok((v, n)) => Ok((signed(v, 0x1_0000) as i16, n)),
        Err(e) => Err(e),
    }
}

/// The signed 32-bit number at the head of `bytes`.
pub open spec fn int32(bytes: Seq<u8>) -> Result<(i32, Seq<u8>), DecodeError> {
    match fixed(bytes, 4) {
        Ok((v, n)) => Ok((signed(v, 0x1_0000_0000) as i32, n)),
        Err(e) => Err(e),
    }
}

/// The signed 64-bit number at the head of `bytes`.
pub open spec fn long(bytes: Seq<u8>) -> Result<(i64, Seq<u8>), DecodeError> {
    match fixed(bytes, 8) {
        Ok((v, n)) => Ok((signed(v, 0x1_0000_0000_0000_0000) as i64, n)),
        Err(e) => Err(e),
    }
}

/// The eight bytes of a double-precision number at the head of `bytes`,
/// as the 64-bit pattern that they spell.
pub open spec fn double_bits(bytes: Seq<u8>) -> Result<(u64, Seq<u8>), DecodeError> {
    match fixed(bytes, 8) {
        Ok((v, n)) => Ok((v as u64, n)),
        Err(e) => Err(e),
    }
}

/// The 128-bit identifier at the head of `bytes`.
pub open spec fn uuid(bytes: Seq<u8>) -> Result<(u128, Seq<u8>), DecodeError> {
    match fixed(bytes, 16) {
        Ok((v, n)) => Ok((v as u128, n)),
        Err(e) => Err(e),
    }
}

/// The boolean at the head of `bytes`: one byte, 0 or 1.
pub open spec fn boolean(bytes: Seq<u8>) -> Result<(bool, Seq<u8>), DecodeError> {
    if bytes.len() < 1 {
        Err(DecodeError::InsufficientData)
    } else if bytes[0] == 0 {
        Ok((false, bytes.skip(1)))
    } else if bytes[0] == 1 {
        Ok((true, bytes.skip(1)))
    } else {
        Err(DecodeError::InvalidBoolEncoding)
    }
}

/// The packed position at the head of `bytes`.
pub open spec fn packed_position(bytes: Seq<u8>) -> Result<
    ((i64, i64, i64), Seq<u8>),
    DecodeError,
> {
    match fixed(bytes, 8) {
        Ok((v, n)) => Ok((unpack_position(v), n)),
        Err(e) => Err(e),
    }
}

/// The first `count` bytes of `bytes`, where the count was read from the
/// wire, and the bytes that follow them. A count that is negative or larger
/// than `bytes` is `InsufficientData`.
pub open spec fn run(count: i32, bytes: Seq<u8>) -> Result<(Seq<u8>, Seq<u8>), DecodeError> {
    if count < 0 || count > bytes.len() {
        Err(DecodeError::InsufficientData)
    } else {
        Ok((bytes.take(count as int), bytes.skip(count as int)))
    }
}

/// The run of bytes at the head of `bytes` that a 32-bit variable-length
/// count announces, and the bytes that follow the run. A count that is
/// negative or larger than what follows it is `InsufficientData`.
pub open spec fn counted(bytes: Seq<u8>) -> Result<(Seq<u8>, Seq<u8>), DecodeError> {
    match varint(bytes) {
        Err(e) => Err(e),
        Ok((count, rest)) => run(count, rest),
    }
}

/// The string at the head of `bytes`, a counted run of bytes that is UTF-8,
/// and the bytes that follow it.
pub open spec fn text(bytes: Seq<u8>) -> Result<(Seq<char>, Seq<u8>), DecodeError> {
    match counted(bytes) {
        Err(e) => Err(e),
        Ok((run, rest)) => if vstd::utf8::valid_utf8(run) {
            Ok((vstd::utf8::decode_utf8(run), rest))
        } else {
            Err(DecodeError::InvalidUtf8)
        },
    }
}

/// A decoder met its model: on success it returned the model's value and
/// left in the buffer what the model leaves, on failure it returned the
/// model's error and left the buffer as it was.
pub open spec fn consumes<T>(
    before: Seq<u8>,
    after: Seq<u8>,
    r: Result<T, DecodeError>,
    model: Result<(T, Seq<u8>), DecodeError>,
) -> bool {
    match model {
        Ok((v, rest)) => r == Ok::<T, DecodeError>(v) && after == rest,
        Err(e) => r == Err::<T, DecodeError>(e) && after == before,
    }
}

/// The 64-bit number that packs the coordinates `x`, `y` and `z`.
pub open spec fn pack_position(x: int, y: int, z: int) -> nat {
    (unsigned(x, 0x400_0000) * 0x40_0000_0000 + unsigned(z, 0x400_0000) * 0x1000 + unsigned(
        y,
        0x1000,
    )) as nat
}

/// The first eleven powers of 128.
pub proof fn radix_values()
    ensures
        radix(0) == 1,
        radix(1) == 0x80,
        radix(2) == 0x4000,
        radix(3) == 0x20_0000,
        radix(4) == 0x1000_0000,
        radix(5) == 0x8_0000_0000,
        radix(6) == 0x400_0000_0000,
        radix(7) == 0x2_0000_0000_0000,
        radix(8) == 0x100_0000_0000_0000,
        radix(9) == 0x8000_0000_0000_0000,
        radix(10) == 0x40_0000_0000_0000_0000,
{
    reveal_with_fuel(radix, 12);
}

/// The first seventeen powers of 256.
pub proof fn span_values()
    ensures
        span(0) == 1,
        span(1) == 0x100,
        span(2) == 0x1_0000,
        span(3) == 0x100_0000,
        span(4) == 0x1_0000_0000,
        span(5) == 0x100_0000_0000,
        span(6) == 0x1_0000_0000_0000,
        span(7) == 0x100_0000_0000_0000,
        span(8) == 0x1_0000_0000_0000_0000,
        span(9) == 0x100_0000_0000_0000_0000,
        span(10) == 0x1_0000_0000_0000_0000_0000,
        span(11) == 0x100_0000_0000_0000_0000_0000,
        span(12) == 0x1_0000_0000_0000_0000_0000_0000,
        span(13) == 0x100_0000_0000_0000_0000_0000_0000,
        span(14) == 0x1_0000_0000_0000_0000_0000_0000_0000,
        span(15) == 0x100_0000_0000_0000_0000_0000_0000_0000,
        span(16) == 0x1_0000_0000_0000_0000_0000_0000_0000_0000,
{
    reveal_with_fuel(span, 18);
}

/// A successful read of groups stays within `max` bytes and below 128^`max`,
/// and never reads past the end.
pub proof fn varint_groups_bounds(bytes: Seq<u8>, max: nat)
    ensures
        varint_groups(bytes, max) matches Ok((v, n)) ==> (1 <= n <= max && n <= bytes.len() && v
            < radix(n)),
    decreases max,
{
    if bytes.len() > 0 && max > 0 && bytes[0] >= 128 {
        varint_groups_bounds(bytes.skip(1), (max - 1) as nat);
        if let Ok((v, n)) = varint_groups(bytes.skip(1), (max - 1) as nat) {
            assert(radix(n + 1) == 128 * radix(n));
        }
    } else if bytes.len() > 0 && max > 0 {
        assert(radix(1) == 128 * radix(0));
    }
}

/// The powers of 256 grow.
pub proof fn span_monotonic(i: nat, j: nat)
    requires
        i <= j,
    ensures
        span(i) <= span(j),
    decreases j,
{
    if i < j {
        span_monotonic(i, (j - 1) as nat);
    }
}

/// The shortest groups of a number below 128^`max` decode to that number,
/// whatever follows them.
pub proof fn groups_round_trip(v: nat, max: nat, rest: Seq<u8>)
    requires
        max >= 1,
        v < radix(max),
    ensures
        varint_groups(encode_groups(v) + rest, max) == Ok::<(nat, nat), DecodeError>(
            (v, encode_groups(v).len()),
        ),
        1 <= encode_groups(v).len() <= max,
    decreases v,
{
    let bytes = encode_groups(v) + rest;
    if v < 128 {
        assert(bytes[0] == v as u8);
    } else {
        assert(radix(max) == 128 * radix((max - 1) as nat));
        if max == 1 {
            assert(radix(0) == 1);
        }
        let tail = encode_groups(v / 128);
        assert(bytes[0] == (128 + v % 128) as u8);
        assert(bytes.skip(1) == tail + rest);
        groups_round_trip(v / 128, (max - 1) as nat, rest);
    }
}

/// Encoding a 32-bit integer as a variable-length integer and decoding it
/// again gives the integer back and consumes exactly its encoding.
pub proof fn varint_round_trip(x: i32, rest: Seq<u8>)
    ensures
        varint(encode_varint(x) + rest) == Ok::<(i32, Seq<u8>), DecodeError>((x, rest)),
        1 <= encode_varint(x).len() <= 5,
{
    radix_values();
    groups_round_trip(unsigned(x as int, 0x1_0000_0000), 5, rest);
    assert((encode_varint(x) + rest).skip(encode_varint(x).len() as int) == rest);
}

/// Encoding a 64-bit integer as a variable-length integer and decoding it
/// again gives the integer back and consumes exactly its encoding.
pub proof fn varlong_round_trip(x: i64, rest: Seq<u8>)
    ensures
        varlong(encode_varlong(x) + rest) == Ok::<(i64, Seq<u8>), DecodeError>((x, rest)),
        1 <= encode_varlong(x).len() <= 10,
{
    radix_values();
    groups_round_trip(unsigned(x as int, 0x1_0000_0000_0000_0000), 10, rest);
    assert((encode_varlong(x) + rest).skip(encode_varlong(x).len() as int) == rest);
}

/// Where the first `max` bytes all ask for another byte and another byte
/// follows, the number is malformed.
pub proof fn groups_overlong(bytes: Seq<u8>, max: nat)
    requires
        bytes.len() > max,
        forall|i: int| 0 <= i < max ==> bytes[i] >= 128,
    ensures
        varint_groups(bytes, max) == Err::<(nat, nat), DecodeError>(DecodeError::MalformedVarInt),
    decreases max,
{
    if max > 0 {
        let tail = bytes.skip(1);
        assert forall|i: int| 0 <= i < max - 1 implies tail[i] >= 128 by {
            assert(tail[i] == bytes[i + 1]);
        }
        groups_overlong(tail, (max - 1) as nat);
    }
}

/// A sixth byte after five that ask for more makes a 32-bit variable-length
/// integer malformed, and an eleventh after ten a 64-bit one.
pub proof fn varint_overlong(bytes: Seq<u8>)
    ensures
        bytes.len() > 5 && (forall|i: int| 0 <= i < 5 ==> bytes[i] >= 128) ==> varint(bytes)
            == Err::<(i32, Seq<u8>), DecodeError>(DecodeError::MalformedVarInt),
        bytes.len() > 10 && (forall|i: int| 0 <= i < 10 ==> bytes[i] >= 128) ==> varlong(bytes)
            == Err::<(i64, Seq<u8>), DecodeError>(DecodeError::MalformedVarInt),
{
    if bytes.len() > 5 && (forall|i: int| 0 <= i < 5 ==> bytes[i] >= 128) {
        groups_overlong(bytes, 5);
    }
    if bytes.len() > 10 && (forall|i: int| 0 <= i < 10 ==> bytes[i] >= 128) {
        groups_overlong(bytes, 10);
    }
}

/// The `n` big-endian bytes of a number below 256^`n` spell that number,
/// whatever follows them.
pub proof fn be_round_trip(v: nat, n: nat, rest: Seq<u8>)
    requires
        v < span(n),
    ensures
        be_bytes(v, n).len() == n,
        be_value(be_bytes(v, n)) == v,
        fixed(be_bytes(v, n) + rest, n) == Ok::<(nat, Seq<u8>), DecodeError>((v, rest)),
    decreases n,
{
    if n > 0 {
        be_round_trip(v / 256, (n - 1) as nat, Seq::empty());
        assert(be_bytes(v, n).drop_last() == be_bytes(v / 256, (n - 1) as nat));
    }
    assert((be_bytes(v, n) + rest).take(n as int) == be_bytes(v, n));
    assert((be_bytes(v, n) + rest).skip(n as int) == rest);
}

/// An unsigned 16-bit number survives big-endian encoding and decoding.
pub proof fn ushort_round_trip(x: u16, rest: Seq<u8>)
    ensures
        ushort(be_bytes(x as nat, 2) + rest) == Ok::<(u16, Seq<u8>), DecodeError>((x, rest)),
{
    span_values();
    be_round_trip(x as nat, 2, rest);
}

/// A signed 16-bit number survives big-endian encoding and decoding.
pub proof fn short_round_trip(x: i16, rest: Seq<u8>)
    ensures
        short(be_bytes(unsigned(x as int, 0x1_0000), 2) + rest) == Ok::<
            (i16, Seq<u8>),
            DecodeError,
        >((x, rest)),
{
    span_values();
    be_round_trip(unsigned(x as int, 0x1_0000), 2, rest);
}

/// A signed 32-bit number survives big-endian encoding and decoding.
pub proof fn int32_round_trip(x: i32, rest: Seq<u8>)
    ensures
        int32(be_bytes(unsigned(x as int, 0x1_0000_0000), 4) + rest) == Ok::<
            (i32, Seq<u8>),
            DecodeError,
        >((x, rest)),
{
    span_values();
    be_round_trip(unsigned(x as int, 0x1_0000_0000), 4, rest);
}

/// A signed 64-bit number survives big-endian encoding and decoding.
pub proof fn long_round_trip(x: i64, rest: Seq<u8>)
    ensures
        long(be_bytes(unsigned(x as int, 0x1_0000_0000_0000_0000), 8) + rest) == Ok::<
            (i64, Seq<u8>),
            DecodeError,
        >((x, rest)),
{
    span_values();
    be_round_trip(unsigned(x as int, 0x1_0000_0000_0000_0000), 8, rest);
}

/// The 64-bit pattern of a double-precision number survives big-endian
/// encoding and decoding.
pub proof fn double_bits_round_trip(x: u64, rest: Seq<u8>)
    ensures
        double_bits(be_bytes(x as nat, 8) + rest) == Ok::<(u64, Seq<u8>), DecodeError>((x, rest)),
{
    span_values();
    be_round_trip(x as nat, 8, rest);
}

/// A 128-bit identifier survives big-endian encoding and decoding.
pub proof fn uuid_round_trip(x: u128, rest: Seq<u8>)
    ensures
        uuid(be_bytes(x as nat, 16) + rest) == Ok::<(u128, Seq<u8>), DecodeError>((x, rest)),
{
    span_values();
    be_round_trip(x as nat, 16, rest);
}

/// Coordinates within their widths survive packing and unpacking.
pub proof fn position_round_trip(x: i64, y: i64, z: i64, rest: Seq<u8>)
    requires
        -0x200_0000 <= x < 0x200_0000,
        -0x800 <= y < 0x800,
        -0x200_0000 <= z < 0x200_0000,
    ensures
        packed_position(be_bytes(pack_position(x as int, y as int, z as int), 8) + rest) == Ok::<
            ((i64, i64, i64), Seq<u8>),
            DecodeError,
        >(((x, y, z), rest)),
{
    span_values();
    let xu = unsigned(x as int, 0x400_0000);
    let yu = unsigned(y as int, 0x1000);
    let zu = unsigned(z as int, 0x400_0000);
    let v = pack_position(x as int, y as int, z as int);
    digits(xu * 0x400_0000 + zu, yu, 0x1000);
    digits(xu, zu, 0x400_0000);
    digits(xu, zu * 0x1000 + yu, 0x40_0000_0000);
    assert(v == (xu * 0x400_0000 + zu) * 0x1000 + yu);
    assert(v == xu * 0x40_0000_0000 + (zu * 0x1000 + yu));
    be_round_trip(v, 8, rest);
}

/// A number written as a high part times a base plus a low part below the
/// base divides back into its two parts.
proof fn digits(high: nat, low: nat, base: nat)
    requires
        low < base,
    ensures
        (high * base + low) / base == high,
        (high * base + low) % base == low,
{
    assert((high * base + low) / base == high && (high * base + low) % base == low)
        by (nonlinear_arith)
        requires
            low < base,
    ;
}

/// Bytes that arrive behind a number that is already complete, or already
/// malformed, do not change what it decodes to.
pub proof fn groups_extend(a: Seq<u8>, b: Seq<u8>, max: nat)
    ensures
        varint_groups(a, max) is Ok ==> varint_groups(a + b, max) == varint_groups(a, max),
        varint_groups(a, max) == Err::<(nat, nat), DecodeError>(DecodeError::MalformedVarInt)
            ==> varint_groups(a + b, max) == varint_groups(a, max),
    decreases max,
{
    if a.len() > 0 && max > 0 {
        assert((a + b)[0] == a[0]);
        if a[0] >= 128 {
            assert((a + b).skip(1) == a.skip(1) + b);
            groups_extend(a.skip(1), b, (max - 1) as nat);
        }
    }
}

/// Bytes that arrive behind a complete variable-length integer are left
/// behind it, and a malformed one stays malformed.
pub proof fn varint_extend(a: Seq<u8>, b: Seq<u8>)
    ensures
        varint(a) matches Ok((v, rest)) ==> varint(a + b) == Ok::<(i32, Seq<u8>), DecodeError>(
            (v, rest + b),
        ),
        varint(a) == Err::<(i32, Seq<u8>), DecodeError>(DecodeError::MalformedVarInt) ==> varint(
            a + b,
        ) == varint(a),
{
    groups_extend(a, b, 5);
    varint_groups_bounds(a, 5);
    if let Ok((v, n)) = varint_groups(a, 5) {
        assert((a + b).skip(n as int) == a.skip(n as int) + b);
    }
}

/// Bytes that arrive behind a complete counted run are left behind it.
pub proof fn counted_extend(a: Seq<u8>, b: Seq<u8>)
    ensures
        counted(a) matches Ok((bytes, rest)) ==> counted(a + b) == Ok::<
            (Seq<u8>, Seq<u8>),
            DecodeError,
        >((bytes, rest + b)),
        counted(a) == Err::<(Seq<u8>, Seq<u8>), DecodeError>(DecodeError::MalformedVarInt)
            ==> counted(a + b) == counted(a),
{
    varint_extend(a, b);
    if let Ok((count, rest)) = varint(a) {
        if 0 <= count <= rest.len() {
            assert((rest + b).take(count as int) == rest.take(count as int));
            assert((rest + b).skip(count as int) == rest.skip(count as int) + b);
        }
    }
}

/// A counted run of which only a part has arrived cannot be taken, whether
/// the cut falls in the run or in its count; once the whole of it has
/// arrived it is taken exactly, and what follows is left.
pub proof fn counted_round_trip(bytes: Seq<u8>, cut: int, rest: Seq<u8>)
    requires
        bytes.len() <= i32::MAX,
    ensures
        ({
            let whole = encode_varint(bytes.len() as i32) + bytes;
            &&& counted(whole + rest) == Ok::<(Seq<u8>, Seq<u8>), DecodeError>((bytes, rest))
            &&& 0 <= cut < whole.len() ==> counted(whole.take(cut)) == Err::<
                (Seq<u8>, Seq<u8>),
                DecodeError,
            >(DecodeError::InsufficientData)
        }),
{
    let count = bytes.len() as i32;
    let head = encode_varint(count);
    let whole = head + bytes;
    varint_round_trip(count, bytes + rest);
    assert(whole + rest == head + (bytes + rest));
    assert((bytes + rest).take(count as int) == bytes);
    assert((bytes + rest).skip(count as int) == rest);
    if 0 <= cut < whole.len() {
        if cut < head.len() {
            groups_cut(unsigned(count as int, 0x1_0000_0000), cut, 5);
            assert(whole.take(cut) == head.take(cut));
        } else {
            let part = bytes.take(cut - head.len());
            varint_round_trip(count, part);
            assert(whole.take(cut) == head + part);
        }
    }
}

/// A number of which only the first groups have arrived needs more data.
proof fn groups_cut(v: nat, cut: int, max: nat)
    requires
        0 <= cut < encode_groups(v).len() <= max,
    ensures
        varint_groups(encode_groups(v).take(cut), max) == Err::<(nat, nat), DecodeError>(
            DecodeError::InsufficientData,
        ),
    decreases v,
{
    let whole = encode_groups(v);
    if cut > 0 {
        if v >= 128 {
            assert(whole.take(cut)[0] == whole[0]);
            assert(whole.take(cut).skip(1) == encode_groups(v / 128).take(cut - 1));
            groups_cut(v / 128, cut - 1, (max - 1) as nat);
        }
    }
}

} // verus!
