use packet_tap::functions::Func;
use packet_tap::types::{Direction, State};
use packet_tap::utils::{
    make_string_fixed_length, push_bool, push_decimal, push_hex, push_short_hex, push_signed,
};

#[test]
fn short_strings_are_kept() {
    assert_eq!(make_string_fixed_length("abc".to_string(), 20), "abc");
    assert_eq!(make_string_fixed_length(String::new(), 1), "");
    let twenty = "01234567890123456789".to_string();
    assert_eq!(make_string_fixed_length(twenty.clone(), 20), twenty);
}

#[test]
fn long_strings_keep_their_two_ends() {
    let long = "0123456789abcdefghijk".to_string();
    assert_eq!(
        make_string_fixed_length(long, 20),
        "0123456789abcdefghi...23456789abcdefghijk"
    );
    assert_eq!(make_string_fixed_length("hello".to_string(), 3), "he...lo");
    assert_eq!(make_string_fixed_length("hello".to_string(), 1), "...");
}

#[test]
fn long_strings_of_wide_characters() {
    assert_eq!(make_string_fixed_length("ääää".to_string(), 3), "ä...ä");
}

#[test]
fn numbers_as_text() {
    let mut out = String::new();
    push_decimal(&mut out, 0);
    out.push(' ');
    push_decimal(&mut out, 25565);
    out.push(' ');
    push_decimal(&mut out, u128::MAX);
    assert_eq!(out, format!("0 25565 {}", u128::MAX));

    let mut out = String::from("x=");
    push_signed(&mut out, -42);
    out.push(' ');
    push_signed(&mut out, i64::MIN);
    out.push(' ');
    push_signed(&mut out, i64::MAX);
    assert_eq!(out, format!("x=-42 {} {}", i64::MIN, i64::MAX));

    let mut out = String::new();
    push_hex(&mut out, 0);
    out.push(' ');
    push_hex(&mut out, 0xdead_beef);
    out.push(' ');
    push_hex(&mut out, u128::MAX);
    assert_eq!(out, format!("0 deadbeef {:x}", u128::MAX));

    let mut out = String::new();
    push_bool(&mut out, true);
    push_bool(&mut out, false);
    assert_eq!(out, "truefalse");
}

#[test]
fn bytes_as_hexadecimal() {
    let mut out = String::new();
    push_short_hex(&mut out, &[0x00, 0x0f, 0xa5, 0xff], 20);
    assert_eq!(out, "000fa5ff");

    let data: Vec<u8> = (0u8..16).collect();
    let mut out = String::from("> ");
    push_short_hex(&mut out, &data, 20);
    assert_eq!(out, "> 0001020304050607080...60708090a0b0c0d0e0f");
}

#[test]
fn names_of_phases_directions_and_kinds() {
    assert_eq!(State::Handshaking.to_string(), "Handshaking");
    assert_eq!(State::Status.to_string(), "Status");
    assert_eq!(State::Login.to_string(), "Login");
    assert_eq!(State::Play.to_string(), "Play");
    assert_eq!(Direction::Serverbound.to_string(), "C>S");
    assert_eq!(Direction::Clientbound.to_string(), "S>C");
    assert_eq!(Func::Handshake.to_string(), "Handshake");
    assert_eq!(Func::SpawnLivingEntity.to_string(), "SpawnLivingEntity");
    assert_eq!(Func::EncResponse.to_string(), format!("{:?}", Func::EncResponse));
}
