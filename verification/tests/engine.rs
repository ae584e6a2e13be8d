use cfb8::cipher::{NewStreamCipher, StreamCipher};
use packet_tap::error::DecodeError;
use packet_tap::functions::{get_functions, Func};
use packet_tap::packet::Packet;
use packet_tap::parsable::Parsable;
use packet_tap::parser::{
    dispatch, handle_frame, next_frame, uncompress, Action, Event, Outcome, PacketParser,
};
use packet_tap::types::{Direction, State, Status, UpdateError};

fn string(text: &str) -> Vec<u8> {
    let mut out = vec![text.len() as u8];
    out.extend_from_slice(text.as_bytes());
    out
}

fn frame(body: &[u8]) -> Vec<u8> {
    assert!(body.len() < 128);
    let mut out = vec![body.len() as u8];
    out.extend_from_slice(body);
    out
}

fn handshake_frame() -> Vec<u8> {
    let mut bytes = vec![0x10, 0x00, 0x00];
    bytes.extend(string("play.local"));
    bytes.extend_from_slice(&[0x63, 0xdd, 0x02]);
    bytes
}

fn login_success_frame() -> Vec<u8> {
    let mut body = vec![0x02];
    body.extend_from_slice(&7u128.to_be_bytes());
    body.extend(string("Alex"));
    frame(&body)
}

fn names(outcomes: &[Outcome]) -> Vec<String> {
    outcomes
        .iter()
        .map(|o| match o {
            Outcome::Packet(p) => {
                let coordinates: Vec<String> =
                    p.doubles().iter().map(|b| f64::from_bits(*b).to_string()).collect();
                let (name, detail) = p.get_printable(&coordinates);
                format!("{} {}", name, detail)
            }
            Outcome::UnknownPacket(id) => format!("unknown {}", id),
            Outcome::DecompressionFailure => "inflate".to_string(),
            Outcome::Malformed(e) => format!("malformed {:?}", e),
        })
        .collect()
}

#[test]
fn incomplete_frame_leaves_the_buffer() {
    let whole = handshake_frame();
    for cut in 0..whole.len() {
        let mut data = Packet::from(whole[..cut].to_vec());
        assert_eq!(next_frame(&mut data).unwrap_err(), DecodeError::InsufficientData);
        assert_eq!(data.get_vec(), whole[..cut].to_vec());
        data.push_vec(whole[cut..].to_vec());
        data.push(0x77);
        let frame = next_frame(&mut data).unwrap();
        assert_eq!(frame.get_vec(), whole[1..].to_vec());
        assert_eq!(data.get_vec(), vec![0x77]);
    }
}

#[test]
fn frames_with_a_bad_length_stay_in_the_buffer() {
    let mut data = Packet::from(vec![0xff, 0xff, 0xff, 0xff, 0x0f, 1, 2, 3]);
    assert_eq!(next_frame(&mut data).unwrap_err(), DecodeError::InsufficientData);
    assert_eq!(data.len(), 8);
    let mut data = Packet::from(vec![0x80, 0x80, 0x80, 0x80, 0x80, 0x01, 2, 3]);
    assert_eq!(next_frame(&mut data).unwrap_err(), DecodeError::MalformedVarInt);
    assert_eq!(data.len(), 8);
}

#[test]
fn empty_frame() {
    let mut data = Packet::from(vec![0x00, 0x01, 0x09]);
    assert_eq!(next_frame(&mut data).unwrap().len(), 0);
    assert_eq!(next_frame(&mut data).unwrap().get_vec(), vec![0x09]);
    assert_eq!(next_frame(&mut data).unwrap_err(), DecodeError::InsufficientData);
}

#[test]
fn compression_layer() {
    let body = b"a body that is long enough to be worth compressing, compressing".to_vec();
    assert_eq!(uncompress(0, Packet::from(body.clone())).unwrap().get_vec(), body);

    let mut plain = vec![0x00];
    plain.extend_from_slice(&body);
    assert_eq!(uncompress(64, Packet::from(plain)).unwrap().get_vec(), body);

    let mut packed = vec![body.len() as u8];
    packed.extend(miniz_oxide::deflate::compress_to_vec_zlib(&body, 6));
    assert_eq!(uncompress(64, Packet::from(packed.clone())).unwrap().get_vec(), body);

    packed.truncate(10);
    assert!(matches!(
        uncompress(64, Packet::from(packed)),
        Err(Outcome::DecompressionFailure)
    ));
    assert!(matches!(
        uncompress(64, Packet::from(vec![5, 1, 2, 3, 4, 5])),
        Err(Outcome::DecompressionFailure)
    ));
    assert!(matches!(
        uncompress(64, Packet::from(vec![5])),
        Err(Outcome::DecompressionFailure)
    ));
    assert!(matches!(
        uncompress(1, Packet::new()),
        Err(Outcome::Malformed(DecodeError::InsufficientData))
    ));
    assert!(matches!(
        uncompress(1, Packet::from(vec![0x80; 6])),
        Err(Outcome::Malformed(DecodeError::MalformedVarInt))
    ));
}

#[test]
fn dispatch_by_direction_phase_and_id() {
    let functions = get_functions();
    let body = handshake_frame()[1..].to_vec();
    let outcome = dispatch(
        &functions,
        &Direction::Serverbound,
        &State::Handshaking,
        Packet::from(body.clone()),
    );
    match outcome {
        Outcome::Packet(Parsable::Handshake(h)) => {
            assert_eq!(h.server_address, "play.local");
            assert_eq!(h.server_port, 25565);
            assert_eq!(h.next_state, State::Login);
        }
        other => panic!("{:?}", other),
    }
    assert!(matches!(
        dispatch(
            &functions,
            &Direction::Clientbound,
            &State::Handshaking,
            Packet::from(body.clone())
        ),
        Outcome::UnknownPacket(0)
    ));
    assert!(matches!(
        dispatch(&functions, &Direction::Serverbound, &State::Play, Packet::from(body.clone())),
        Outcome::UnknownPacket(0)
    ));
    assert!(matches!(
        dispatch(&functions, &Direction::Serverbound, &State::Login, Packet::from(vec![0x63])),
        Outcome::UnknownPacket(0x63)
    ));
    assert!(matches!(
        dispatch(&functions, &Direction::Serverbound, &State::Login, Packet::new()),
        Outcome::Malformed(DecodeError::InsufficientData)
    ));
    assert!(matches!(
        dispatch(
            &functions,
            &Direction::Serverbound,
            &State::Handshaking,
            Packet::from(body[..5].to_vec())
        ),
        Outcome::Malformed(DecodeError::InsufficientData)
    ));
}

#[test]
fn compressed_frame_through_the_session() {
    let functions = get_functions();
    let mut status = Status::new();
    status.state = State::Login;
    status.compress = 16;
    let mut body = vec![0x02];
    body.extend_from_slice(&7u128.to_be_bytes());
    body.extend(string("Alex"));
    let mut frame = vec![body.len() as u8];
    frame.extend(miniz_oxide::deflate::compress_to_vec_zlib(&body, 6));
    match handle_frame(&functions, &Direction::Clientbound, &status, Packet::from(frame)) {
        Outcome::Packet(p) => {
            assert_eq!(p.kind(), Func::LoginSuccess);
            assert_eq!(p.get_printable(&Vec::new()).1, "7 Alex");
        }
        other => panic!("{:?}", other),
    }
    let mut frame = vec![0x00];
    frame.extend_from_slice(&body);
    assert!(matches!(
        handle_frame(&functions, &Direction::Clientbound, &status, Packet::from(frame)),
        Outcome::Packet(Parsable::LoginSuccess(_))
    ));
}

#[test]
fn handshake_in_one_chunk() {
    let mut status = Status::new();
    let mut parser = PacketParser::new(Direction::Serverbound);
    let progress = parser.packet_parser(&mut status, Event::Chunk(handshake_frame()));
    assert_eq!(names(&progress.outcomes), vec!["HANDSHAKE 0 play.local:25565 Login"]);
    assert_eq!(progress.next, Action::AwaitChunk);
    assert_eq!(progress.update, Ok(()));
    assert_eq!(status.state, State::Login);
    assert_eq!(parser.buffered(), 0);
}

#[test]
fn handshake_split_in_two_chunks() {
    let whole = handshake_frame();
    for cut in 0..=whole.len() {
        let mut status = Status::new();
        let mut parser = PacketParser::new(Direction::Serverbound);
        let first = parser.packet_parser(&mut status, Event::Chunk(whole[..cut].to_vec()));
        if cut < whole.len() {
            assert!(first.outcomes.is_empty());
            assert_eq!(status.state, State::Handshaking);
            assert_eq!(parser.buffered(), cut);
        }
        let second = parser.packet_parser(&mut status, Event::Chunk(whole[cut..].to_vec()));
        let mut all = names(&first.outcomes);
        all.extend(names(&second.outcomes));
        assert_eq!(all, vec!["HANDSHAKE 0 play.local:25565 Login"]);
        assert_eq!(status.state, State::Login);
        assert_eq!(parser.buffered(), 0);
        assert_eq!(second.next, Action::AwaitChunk);
    }
}

#[test]
fn handshake_byte_by_byte() {
    let mut status = Status::new();
    let mut parser = PacketParser::new(Direction::Serverbound);
    let mut seen = Vec::new();
    for byte in handshake_frame() {
        let progress = parser.packet_parser(&mut status, Event::Chunk(vec![byte]));
        seen.extend(names(&progress.outcomes));
    }
    assert_eq!(seen, vec!["HANDSHAKE 0 play.local:25565 Login"]);
    assert_eq!(status.state, State::Login);
}

#[test]
fn phases_follow_the_packets() {
    let mut status = Status::new();
    let mut client = PacketParser::new(Direction::Serverbound);
    let mut server = PacketParser::new(Direction::Clientbound);

    client.packet_parser(&mut status, Event::Chunk(handshake_frame()));
    assert_eq!(status.state, State::Login);

    let progress = server.packet_parser(&mut status, Event::Chunk(login_success_frame()));
    assert_eq!(names(&progress.outcomes), vec!["LOGIN_SUCCESS 7 Alex"]);
    assert_eq!(status.state, State::Play);

    status.state = State::Login;
    let mut body = vec![0x00];
    body.extend(string("full"));
    let progress = server.packet_parser(&mut status, Event::Chunk(frame(&body)));
    assert_eq!(names(&progress.outcomes), vec!["LOGIN_DISCONNECT full"]);
    assert_eq!(status.state, State::Handshaking);

    status.state = State::Status;
    let mut body = vec![0x01];
    body.extend_from_slice(&5i64.to_be_bytes());
    let progress = server.packet_parser(&mut status, Event::Chunk(frame(&body)));
    assert_eq!(names(&progress.outcomes), vec!["STATUS_PONG 5"]);
    assert_eq!(status.state, State::Handshaking);
}

#[test]
fn unknown_packets_are_skipped() {
    for state in [State::Handshaking, State::Status, State::Login, State::Play] {
        let mut status = Status::new();
        status.state = state;
        let mut parser = PacketParser::new(Direction::Serverbound);
        let mut chunk = frame(&[0x55, 1, 2, 3]);
        chunk.extend(frame(&[0x56]));
        let progress = parser.packet_parser(&mut status, Event::Chunk(chunk));
        assert_eq!(names(&progress.outcomes), vec!["unknown 85", "unknown 86"]);
        assert_eq!(status.state, state);
        assert_eq!(status.compress, 0);
        assert_eq!(parser.buffered(), 0);
    }
}

#[test]
fn a_malformed_packet_does_not_stop_the_parser() {
    let mut status = Status::new();
    let mut parser = PacketParser::new(Direction::Serverbound);
    let mut chunk = frame(&[0x00, 0x00, 0x03, b'a']);
    chunk.extend(frame(&[]));
    chunk.extend(handshake_frame());
    let progress = parser.packet_parser(&mut status, Event::Chunk(chunk));
    assert_eq!(
        names(&progress.outcomes),
        vec![
            "malformed InsufficientData",
            "malformed InsufficientData",
            "HANDSHAKE 0 play.local:25565 Login"
        ]
    );
    assert_eq!(status.state, State::Login);
}

#[test]
fn the_next_frame_sees_the_new_phase_and_threshold() {
    let mut status = Status::new();
    status.state = State::Login;
    let mut parser = PacketParser::new(Direction::Clientbound);

    let mut chunk = frame(&[0x03, 0x40]);
    let mut body = vec![0x02];
    body.extend_from_slice(&7u128.to_be_bytes());
    body.extend(string("Alex"));
    let mut compressed = vec![0x00];
    compressed.extend_from_slice(&body);
    chunk.extend(frame(&compressed));
    let mut orb = vec![0x00, 0x01, 0x2a];
    for v in [1.0f64, 2.5, -3.0] {
        orb.extend_from_slice(&v.to_be_bytes());
    }
    orb.extend_from_slice(&4i16.to_be_bytes());
    chunk.extend(frame(&orb));
    chunk.extend_from_slice(&[0x05, 0x00]);

    let progress = parser.packet_parser(&mut status, Event::Chunk(chunk));
    assert_eq!(
        names(&progress.outcomes),
        vec!["SET_COMPRESSION 64", "LOGIN_SUCCESS 7 Alex", "SPAWN_XP_ORB 42 1 2.5 -3 4"]
    );
    assert_eq!(status.compress, 64);
    assert_eq!(status.state, State::Play);
    assert_eq!(parser.buffered(), 2);
    assert_eq!(progress.next, Action::AwaitChunk);
}

#[test]
fn a_corrupt_compressed_frame_is_dropped() {
    let mut status = Status::new();
    status.state = State::Login;
    status.compress = 1;
    let mut parser = PacketParser::new(Direction::Clientbound);
    let mut chunk = frame(&[0x09, 1, 2, 3, 4]);
    let mut body = vec![0x00, 0x00];
    body.extend(string("bye"));
    chunk.extend(frame(&body));
    let progress = parser.packet_parser(&mut status, Event::Chunk(chunk));
    assert_eq!(names(&progress.outcomes), vec!["inflate", "LOGIN_DISCONNECT bye"]);
    assert_eq!(status.state, State::Handshaking);
}

fn encrypt(key: &[u8], plain: &[u8]) -> Vec<u8> {
    let mut data = plain.to_vec();
    cfb8::Cfb8::<aes::Aes128>::new_var(key, key).unwrap().encrypt(&mut data);
    data
}

#[test]
fn encryption_response_waits_for_the_secret() {
    let key = b"0123456789abcdef";
    let secret = b"MDEyMzQ1Njc4OWFiY2RlZg==".to_vec();
    let mut status = Status::new();
    status.state = State::Login;
    let mut client = PacketParser::new(Direction::Serverbound);
    let mut server = PacketParser::new(Direction::Clientbound);

    let mut chunk = frame(&[0x01, 2, 0xaa, 0xbb, 1, 0xcc]);
    chunk.extend(frame(&[0x55]));
    let progress = client.packet_parser(&mut status, Event::Chunk(chunk));
    assert_eq!(names(&progress.outcomes), vec!["ENC_RESPONSE 2 aabb 1 cc"]);
    assert_eq!(progress.next, Action::AwaitSecret);
    assert!(client.is_awaiting_secret());
    assert_eq!(client.buffered(), 2);

    let progress = client.packet_parser(&mut status, Event::Chunk(vec![0x01]));
    assert!(progress.outcomes.is_empty());
    assert_eq!(progress.next, Action::AwaitSecret);
    assert_eq!(client.buffered(), 3);

    let progress = client.packet_parser(&mut status, Event::Secret(Some(secret)));
    assert_eq!(progress.update, Ok(()));
    assert_eq!(names(&progress.outcomes), vec!["unknown 85"]);
    assert_eq!(progress.next, Action::AwaitChunk);
    assert!(!client.is_awaiting_secret());
    assert_eq!(client.buffered(), 1);

    let wire = encrypt(key, &login_success_frame());
    let (a, b) = wire.split_at(5);
    let first = server.packet_parser(&mut status, Event::Chunk(a.to_vec()));
    assert!(first.outcomes.is_empty());
    let second = server.packet_parser(&mut status, Event::Chunk(b.to_vec()));
    assert_eq!(names(&second.outcomes), vec!["LOGIN_SUCCESS 7 Alex"]);
    assert_eq!(status.state, State::Play);
}

#[test]
fn a_missing_secret_leaves_the_ciphers_disabled() {
    let mut status = Status::new();
    status.state = State::Login;
    let mut client = PacketParser::new(Direction::Serverbound);
    let progress =
        client.packet_parser(&mut status, Event::Chunk(frame(&[0x01, 0, 0])));
    assert_eq!(progress.next, Action::AwaitSecret);
    let progress = client.packet_parser(&mut status, Event::Secret(None));
    assert_eq!(progress.update, Err(UpdateError::SecretMissing));
    assert_eq!(progress.next, Action::AwaitChunk);
    let progress = client.packet_parser(&mut status, Event::Chunk(frame(&[0x00, 1, b'x'])));
    assert_eq!(names(&progress.outcomes), vec!["LOGIN_START x"]);

    let progress =
        client.packet_parser(&mut status, Event::Chunk(frame(&[0x01, 0, 0])));
    assert_eq!(progress.next, Action::AwaitSecret);
    let progress =
        client.packet_parser(&mut status, Event::Secret(Some(b"????".to_vec())));
    assert_eq!(progress.update, Err(UpdateError::SecretMalformed));
    assert_eq!(status.server_cipher.decrypt(vec![1, 2]), vec![1, 2]);
}

#[test]
fn a_secret_that_nobody_asked_for_changes_nothing() {
    let mut status = Status::new();
    let mut client = PacketParser::new(Direction::Serverbound);
    let progress = client.packet_parser(
        &mut status,
        Event::Secret(Some(b"MDEyMzQ1Njc4OWFiY2RlZg==".to_vec())),
    );
    assert_eq!(progress.update, Ok(()));
    assert!(progress.outcomes.is_empty());
    assert_eq!(status.client_cipher.decrypt(vec![1, 2]), vec![1, 2]);
    assert_eq!(status.server_cipher.decrypt(vec![1, 2]), vec![1, 2]);
}
