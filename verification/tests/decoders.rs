use packet_tap::error::DecodeError;
use packet_tap::packet::Packet;

fn encode_varint(value: i32) -> Vec<u8> {
    let mut rest = value as u32;
    let mut out = Vec::new();
    loop {
        if rest < 0x80 {
            out.push(rest as u8);
            return out;
        }
        out.push((rest & 0x7f) as u8 | 0x80);
        rest >>= 7;
    }
}

fn encode_varlong(value: i64) -> Vec<u8> {
    let mut rest = value as u64;
    let mut out = Vec::new();
    loop {
        if rest < 0x80 {
            out.push(rest as u8);
            return out;
        }
        out.push((rest & 0x7f) as u8 | 0x80);
        rest >>= 7;
    }
}

fn sample_u64() -> Vec<u64> {
    let mut seed: u64 = 0x9e37_79b9_7f4a_7c15;
    let mut out = vec![0, 1, u64::MAX, 1 << 63, (1 << 63) - 1, 0x0123_4567_89ab_cdef];
    for _ in 0..200 {
        seed ^= seed << 13;
        seed ^= seed >> 7;
        seed ^= seed << 17;
        out.push(seed);
    }
    out
}

#[test]
fn buffer_appends_and_reads_from_the_head() {
    let mut packet = Packet::new();
    assert_eq!(packet.len(), 0);
    packet.push(1);
    packet.push_vec(vec![2, 3, 4]);
    assert_eq!(packet.len(), 4);
    assert_eq!(packet.get_slice(), &[1, 2, 3, 4]);
    assert_eq!(packet.read(3), Ok(vec![1, 2, 3]));
    assert_eq!(packet.get_vec(), vec![4]);
    assert_eq!(packet.read(0), Ok(vec![]));
    assert_eq!(packet.read(1), Ok(vec![4]));
    assert_eq!(packet.len(), 0);
}

#[test]
fn read_of_too_many_bytes_leaves_the_buffer() {
    let mut packet = Packet::from(vec![9, 8, 7]);
    assert_eq!(packet.read(4), Err(DecodeError::InsufficientData));
    assert_eq!(packet.get_vec(), vec![9, 8, 7]);
}

#[test]
fn read_run_refuses_negative_and_large_counts() {
    let mut packet = Packet::from(vec![9, 8, 7]);
    assert_eq!(packet.read_run(-1), Err(DecodeError::InsufficientData));
    assert_eq!(packet.read_run(4), Err(DecodeError::InsufficientData));
    assert_eq!(packet.len(), 3);
    assert_eq!(packet.read_run(2), Ok(vec![9, 8]));
    assert_eq!(packet.get_vec(), vec![7]);
}

#[test]
fn set_and_clear_replace_the_contents() {
    let mut packet = Packet::from(vec![1, 2]);
    packet.set(vec![5, 6, 7]);
    assert_eq!(packet.get_vec(), vec![5, 6, 7]);
    packet.clear();
    assert_eq!(packet.len(), 0);
}

#[test]
fn varint_round_trip() {
    for v in sample_u64() {
        let value = v as i32;
        let mut packet = Packet::from(encode_varint(value));
        packet.push(0x55);
        assert_eq!(packet.decode_varint(), Ok(value));
        assert_eq!(packet.get_vec(), vec![0x55]);
    }
}

#[test]
fn varlong_round_trip() {
    for v in sample_u64() {
        let value = v as i64;
        let mut packet = Packet::from(encode_varlong(value));
        packet.push(0x55);
        assert_eq!(packet.decode_varlong(), Ok(value));
        assert_eq!(packet.get_vec(), vec![0x55]);
    }
}

#[test]
fn varlong_max_value() {
    let mut bytes = vec![0xff; 8];
    bytes.push(0x7f);
    let mut packet = Packet::from(bytes);
    assert_eq!(packet.decode_varlong(), Ok(i64::MAX));
}

#[test]
fn varint_ignores_the_bits_beyond_32() {
    let mut packet = Packet::from(vec![0xff, 0xff, 0xff, 0xff, 0x7f]);
    assert_eq!(packet.decode_varint(), Ok(-1));
}

#[test]
fn ushort_round_trip() {
    for v in sample_u64() {
        let value = v as u16;
        let mut packet = Packet::from(value.to_be_bytes().to_vec());
        assert_eq!(packet.decode_ushort(), Ok(value));
        assert_eq!(packet.len(), 0);
    }
}

#[test]
fn short_round_trip() {
    for v in sample_u64() {
        let value = v as i16;
        let mut packet = Packet::from(value.to_be_bytes().to_vec());
        assert_eq!(packet.decode_short(), Ok(value));
    }
}

#[test]
fn int_round_trip() {
    for v in sample_u64() {
        let value = v as i32;
        let mut packet = Packet::from(value.to_be_bytes().to_vec());
        assert_eq!(packet.decode_int(), Ok(value));
    }
}

#[test]
fn long_round_trip() {
    for v in sample_u64() {
        let value = v as i64;
        let mut packet = Packet::from(value.to_be_bytes().to_vec());
        assert_eq!(packet.decode_long(), Ok(value));
    }
}

#[test]
fn uuid_round_trip() {
    for v in sample_u64() {
        let value = ((v as u128) << 64) | (v.rotate_left(17) as u128);
        let mut packet = Packet::from(value.to_be_bytes().to_vec());
        assert_eq!(packet.decode_uuid(), Ok(value));
    }
    let mut packet = Packet::from(u128::MAX.to_be_bytes().to_vec());
    assert_eq!(packet.decode_uuid(), Ok(u128::MAX));
}

#[test]
fn double_round_trip() {
    let values: Vec<f64> = vec![0.0, -0.0, 1.5, -273.15, 1e300, f64::MIN_POSITIVE, f64::INFINITY];
    for value in values {
        let mut packet = Packet::from(value.to_be_bytes().to_vec());
        let bits = packet.decode_double().unwrap();
        assert_eq!(bits, value.to_bits());
        assert_eq!(f64::from_bits(bits).to_bits(), value.to_bits());
    }
    for v in sample_u64() {
        let mut packet = Packet::from(v.to_be_bytes().to_vec());
        assert_eq!(packet.decode_double(), Ok(v));
    }
}

#[test]
fn fixed_width_exact_values() {
    assert_eq!(Packet::from(vec![0x63, 0xdd]).decode_ushort(), Ok(25565));
    assert_eq!(Packet::from(vec![0xff, 0xfe]).decode_short(), Ok(-2));
    assert_eq!(Packet::from(vec![0x80, 0, 0, 0]).decode_int(), Ok(i32::MIN));
    assert_eq!(Packet::from(vec![0, 0, 0, 0, 0, 0, 1, 0]).decode_long(), Ok(256));
    assert_eq!(Packet::from(vec![0x3f, 0xf0, 0, 0, 0, 0, 0, 0]).decode_double(), Ok(1.0f64.to_bits()));
}

#[test]
fn fixed_width_needs_all_its_bytes() {
    let mut packet = Packet::from(vec![1]);
    assert_eq!(packet.decode_ushort(), Err(DecodeError::InsufficientData));
    assert_eq!(packet.decode_short(), Err(DecodeError::InsufficientData));
    assert_eq!(packet.decode_int(), Err(DecodeError::InsufficientData));
    assert_eq!(packet.decode_long(), Err(DecodeError::InsufficientData));
    assert_eq!(packet.decode_double(), Err(DecodeError::InsufficientData));
    assert_eq!(packet.decode_uuid(), Err(DecodeError::InsufficientData));
    assert_eq!(packet.decode_position(), Err(DecodeError::InsufficientData));
    assert_eq!(packet.get_vec(), vec![1]);
}

#[test]
fn bool_is_zero_or_one() {
    let mut packet = Packet::from(vec![0, 1, 2]);
    assert_eq!(packet.decode_bool(), Ok(false));
    assert_eq!(packet.decode_bool(), Ok(true));
    assert_eq!(packet.decode_bool(), Err(DecodeError::InvalidBoolEncoding));
    assert_eq!(packet.get_vec(), vec![2]);
    packet.clear();
    assert_eq!(packet.decode_bool(), Err(DecodeError::InsufficientData));
}

#[test]
fn string_is_counted_utf8() {
    let mut bytes = vec![5];
    bytes.extend_from_slice("héllo".as_bytes());
    bytes[0] = "héllo".len() as u8;
    bytes.push(0x2a);
    let mut packet = Packet::from(bytes);
    assert_eq!(packet.decode_string(), Ok("héllo".to_string()));
    assert_eq!(packet.get_vec(), vec![0x2a]);
}

#[test]
fn empty_string() {
    let mut packet = Packet::from(vec![0, 7]);
    assert_eq!(packet.decode_string(), Ok(String::new()));
    assert_eq!(packet.get_vec(), vec![7]);
}

#[test]
fn string_failures_leave_the_buffer() {
    let mut packet = Packet::from(vec![2, 0xff, 0xfe]);
    assert_eq!(packet.decode_string(), Err(DecodeError::InvalidUtf8));
    assert_eq!(packet.len(), 3);

    let mut packet = Packet::from(vec![4, b'a', b'b']);
    assert_eq!(packet.decode_string(), Err(DecodeError::InsufficientData));
    assert_eq!(packet.len(), 3);

    let mut packet = Packet::from(encode_varint(-1));
    assert_eq!(packet.decode_string(), Err(DecodeError::InsufficientData));
    assert_eq!(packet.len(), 5);

    let mut packet = Packet::from(vec![0x80, 0x80, 0x80, 0x80, 0x80, 0x80]);
    assert_eq!(packet.decode_string(), Err(DecodeError::MalformedVarInt));
}

fn pack(x: i64, y: i64, z: i64) -> Vec<u8> {
    let value = (((x & 0x3ff_ffff) as u64) << 38)
        | (((z & 0x3ff_ffff) as u64) << 12)
        | ((y & 0xfff) as u64);
    value.to_be_bytes().to_vec()
}

#[test]
fn position_fields_are_sign_extended() {
    assert_eq!(Packet::from(pack(1, 2, 3)).decode_position(), Ok((1, 2, 3)));
    assert_eq!(Packet::from(pack(-1, -3, 2)).decode_position(), Ok((-1, -3, 2)));
    assert_eq!(Packet::from(pack(100, 64, -200)).decode_position(), Ok((100, 64, -200)));
    assert_eq!(
        Packet::from(pack(33_554_431, 2047, -33_554_432)).decode_position(),
        Ok((33_554_431, 2047, -33_554_432))
    );
    assert_eq!(
        Packet::from(pack(-33_554_432, -2048, 33_554_431)).decode_position(),
        Ok((-33_554_432, -2048, 33_554_431))
    );
}

#[test]
fn position_bit_layout() {
    assert_eq!(
        Packet::from(vec![0, 0, 0, 0x40, 0, 0, 0, 0]).decode_position(),
        Ok((1, 0, 0))
    );
    assert_eq!(
        Packet::from(vec![0, 0, 0, 0, 0, 0, 0x10, 0]).decode_position(),
        Ok((0, 0, 1))
    );
    assert_eq!(
        Packet::from(vec![0, 0, 0, 0, 0, 0, 0, 1]).decode_position(),
        Ok((0, 1, 0))
    );
    assert_eq!(
        Packet::from(vec![0, 0, 0, 0, 0, 0, 0x0f, 0xff]).decode_position(),
        Ok((0, -1, 0))
    );
    assert_eq!(
        Packet::from(vec![0xff; 8]).decode_position(),
        Ok((-1, -1, -1))
    );
}
