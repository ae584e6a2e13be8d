use packet_tap::error::DecodeError;
use packet_tap::packet::Packet;

#[test]
fn test_varint() {
    let mut packet = Packet::new();
    let values = vec![
        (vec![0x00], 0),
        (vec![0x01], 1),
        (vec![0x02], 2),
        (vec![0x7f], 127),
        (vec![0x80, 0x01], 128),
        (vec![0xff, 0x01], 255),
        (vec![0xff, 0xff, 0x7f], 2097151),
        (vec![0xff, 0xff, 0xff, 0xff, 0x07], 2147483647),
        (vec![0xff, 0xff, 0xff, 0xff, 0x0f], -1),
        (vec![0x80, 0x80, 0x80, 0x80, 0x08], -2147483648),
    ];
    for (p, v) in values {
        packet.set(p);
        assert_eq!(packet.decode_varint().unwrap(), v);
        packet.clear()
    }
}

#[test]
fn test_varlong() {
    let mut packet = Packet::new();
    let values = vec![
        (vec![0x00], 0),
        (vec![0x01], 1),
        (vec![0x02], 2),
        (vec![0x7f], 127),
        (vec![0x80, 0x01], 128),
        (vec![0xff, 0x01], 255),
        (vec![0xff, 0xff, 0xff, 0xff, 0x07], 2147483647),
        (
            vec![0xff, 0xff, 0xff, 0xff, 0xff, 0xff, 0xff, 0xff, 0x7f],
            9223372036854775807,
        ),
        (
            vec![0xff, 0xff, 0xff, 0xff, 0xff, 0xff, 0xff, 0xff, 0xff, 0x01],
            -1,
        ),
        (
            vec![0x80, 0x80, 0x80, 0x80, 0xf8, 0xff, 0xff, 0xff, 0xff, 0x01],
            -2147483648,
        ),
        (
            vec![0x80, 0x80, 0x80, 0x80, 0x80, 0x80, 0x80, 0x80, 0x80, 0x01],
            -9223372036854775808,
        ),
    ];
    for (p, v) in values {
        packet.set(p);
        assert_eq!(packet.decode_varlong().unwrap(), v);
        packet.clear()
    }
}

#[test]
fn varint_sixth_byte_is_malformed() {
    let mut packet = Packet::from(vec![0x80, 0x80, 0x80, 0x80, 0x80, 0x01]);
    assert_eq!(packet.decode_varint(), Err(DecodeError::MalformedVarInt));
    assert_eq!(packet.get_vec(), vec![0x80, 0x80, 0x80, 0x80, 0x80, 0x01]);
}

#[test]
fn varint_five_open_bytes_need_more_data() {
    let mut packet = Packet::from(vec![0x80, 0x80, 0x80, 0x80, 0x80]);
    assert_eq!(packet.decode_varint(), Err(DecodeError::InsufficientData));
    assert_eq!(packet.len(), 5);
}

#[test]
fn varlong_eleventh_byte_is_malformed() {
    let mut packet = Packet::from(vec![0xff; 11]);
    assert_eq!(packet.decode_varlong(), Err(DecodeError::MalformedVarInt));
    assert_eq!(packet.len(), 11);
}

#[test]
fn varint_leaves_what_follows() {
    let mut packet = Packet::from(vec![0xff, 0x01, 0x2a, 0x2b]);
    assert_eq!(packet.decode_varint(), Ok(255));
    assert_eq!(packet.get_slice(), &[0x2a, 0x2b]);
}

#[test]
fn varint_from_empty_buffer() {
    let mut packet = Packet::new();
    assert_eq!(packet.decode_varint(), Err(DecodeError::InsufficientData));
    assert_eq!(packet.decode_varlong(), Err(DecodeError::InsufficientData));
}
