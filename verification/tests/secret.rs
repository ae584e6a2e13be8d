use packet_tap::parser::{Action, Event, PacketParser};
use packet_tap::secret::find_secret_key;
use packet_tap::types::{Direction, State, Status};

fn key(log: &str) -> Option<String> {
    find_secret_key(log.as_bytes()).map(|k| String::from_utf8(k).unwrap())
}

#[test]
fn a_log_without_the_marker_names_no_key() {
    assert_eq!(key(""), None);
    assert_eq!(key("\n\n"), None);
    assert_eq!(key("[12:00:01] [main/INFO]: Loading\n[STDOUT]: Secret Key\n"), None);
    assert_eq!(key("[STDOUT]: Secret Key:"), None);
}

#[test]
fn the_key_stands_behind_the_marker() {
    assert_eq!(
        key("[12:00:01] [main/INFO]: [STDOUT]: Secret Key: MDEyMzQ1Njc4OWFiY2RlZg==\n"),
        Some("MDEyMzQ1Njc4OWFiY2RlZg==".to_string())
    );
    assert_eq!(key("[STDOUT]: Secret Key: abc"), Some("abc".to_string()));
    assert_eq!(key("x\n[STDOUT]: Secret Key: \ny"), Some(String::new()));
}

#[test]
fn carriage_returns_are_dropped() {
    assert_eq!(key("a\r\n[STDOUT]: Secret Key: ab\rcd\r\nb\r\n"), Some("abcd".to_string()));
    assert_eq!(key("[STDOUT]: Secret Key: abcd\r"), Some("abcd".to_string()));
}

#[test]
fn the_last_line_with_a_key_wins() {
    let log = "[STDOUT]: Secret Key: first\nnoise\n[STDOUT]: Secret Key: second\nnoise\n";
    assert_eq!(key(log), Some("second".to_string()));
    let log = "[STDOUT]: Secret Key: first\n[STDOUT]: Secret Key: second";
    assert_eq!(key(log), Some("second".to_string()));
}

#[test]
fn a_second_marker_ends_the_key() {
    assert_eq!(
        key("[STDOUT]: Secret Key: one[STDOUT]: Secret Key: two\n"),
        Some("one".to_string())
    );
    assert_eq!(
        key("[STDOUT]: Secret Key: [STDOUT]: Secret Key: two\n"),
        Some(String::new())
    );
}

#[test]
fn lines_that_are_not_text_are_passed_over() {
    let mut log = b"[STDOUT]: Secret Key: good\n".to_vec();
    log.extend_from_slice(b"\xff[STDOUT]: Secret Key: bad\n");
    assert_eq!(find_secret_key(&log), Some(b"good".to_vec()));
    let mut log = b"\xc3[STDOUT]: Secret Key: bad\n".to_vec();
    log.extend_from_slice(b"tail");
    assert_eq!(find_secret_key(&log), None);
}

#[test]
fn the_key_from_the_log_enables_the_ciphers() {
    let log = b"[12:00:01] [main/INFO]: [STDOUT]: Secret Key: MDEyMzQ1Njc4OWFiY2RlZg==\r\n";
    let mut status = Status::new();
    status.state = State::Login;
    let mut client = PacketParser::new(Direction::Serverbound);
    let progress = client.packet_parser(&mut status, Event::Chunk(vec![3, 0x01, 0, 0]));
    assert_eq!(progress.next, Action::AwaitSecret);
    let progress = client.packet_parser(&mut status, Event::Secret(find_secret_key(log)));
    assert_eq!(progress.update, Ok(()));
    assert_ne!(status.server_cipher.decrypt(vec![0; 4]), vec![0; 4]);
    assert_ne!(status.client_cipher.decrypt(vec![0; 4]), vec![0; 4]);
}
