use packet_tap::functions::{get_functions, Func};
use packet_tap::types::{Direction, State};

const PHASES: [State; 4] = [State::Handshaking, State::Status, State::Login, State::Play];

#[test]
fn the_table() {
    let functions = get_functions();
    let expected = [
        (Direction::Clientbound, State::Status, 0, Func::StatusResponse),
        (Direction::Clientbound, State::Status, 1, Func::StatusPong),
        (Direction::Clientbound, State::Login, 0, Func::Disconnect),
        (Direction::Clientbound, State::Login, 1, Func::EncRequest),
        (Direction::Clientbound, State::Login, 2, Func::LoginSuccess),
        (Direction::Clientbound, State::Login, 3, Func::SetCompression),
        (Direction::Clientbound, State::Login, 4, Func::PluginRequest),
        (Direction::Clientbound, State::Play, 0, Func::SpawnEntity),
        (Direction::Clientbound, State::Play, 1, Func::SpawnXpOrb),
        (Direction::Clientbound, State::Play, 2, Func::SpawnLivingEntity),
        (Direction::Clientbound, State::Play, 3, Func::SpawnPainting),
        (Direction::Clientbound, State::Play, 4, Func::SpawnPlayer),
        (Direction::Clientbound, State::Play, 7, Func::AckPlayerDigging),
        (Direction::Serverbound, State::Handshaking, 0, Func::Handshake),
        (Direction::Serverbound, State::Status, 0, Func::StatusRequest),
        (Direction::Serverbound, State::Status, 1, Func::StatusPing),
        (Direction::Serverbound, State::Login, 0, Func::LoginStart),
        (Direction::Serverbound, State::Login, 1, Func::EncResponse),
        (Direction::Serverbound, State::Login, 2, Func::PluginResponse),
    ];
    let mut known = 0;
    for direction in [Direction::Clientbound, Direction::Serverbound] {
        for state in PHASES {
            for id in -2..12 {
                let found = functions.get_name(&direction, &state, &id).copied();
                let wanted = expected
                    .iter()
                    .find(|e| e.0 == direction && e.1 == state && e.2 == id)
                    .map(|e| e.3);
                assert_eq!(found, wanted);
                if found.is_some() {
                    known += 1;
                }
            }
        }
    }
    assert_eq!(known, expected.len());
}

#[test]
fn unknown_triples_have_no_handler() {
    let functions = get_functions();
    assert_eq!(functions.get_name(&Direction::Clientbound, &State::Handshaking, &0), None);
    assert_eq!(functions.get_name(&Direction::Serverbound, &State::Play, &0), None);
    assert_eq!(functions.get_name(&Direction::Serverbound, &State::Login, &3), None);
    assert_eq!(functions.get_name(&Direction::Clientbound, &State::Play, &5), None);
    assert_eq!(functions.get_name(&Direction::Serverbound, &State::Handshaking, &-1), None);
    assert_eq!(functions.get_name(&Direction::Serverbound, &State::Handshaking, &i32::MAX), None);
}

#[test]
fn every_routed_kind_has_a_fresh_decoder() {
    let functions = get_functions();
    for direction in [Direction::Clientbound, Direction::Serverbound] {
        for state in PHASES {
            for id in 0..8 {
                if let Some(kind) = functions.get_name(&direction, &state, &id) {
                    let packet = functions.get(kind).unwrap();
                    assert_eq!(packet.kind(), *kind);
                    let again = functions.get(kind).unwrap();
                    assert_eq!(format!("{:?}", packet), format!("{:?}", again));
                }
            }
        }
    }
}
