use cfb8::cipher::{NewStreamCipher, StreamCipher};
use packet_tap::cipher::Cipher;

fn encrypt(key: &[u8], plain: &[u8]) -> Vec<u8> {
    let mut data = plain.to_vec();
    cfb8::Cfb8::<aes::Aes128>::new_var(key, key).unwrap().encrypt(&mut data);
    data
}

fn sample(len: usize) -> Vec<u8> {
    (0..len).map(|i| (i * 37 + 11) as u8).collect()
}

#[test]
fn disabled_cipher_is_the_identity() {
    let mut cipher = Cipher::new();
    assert_eq!(cipher.decrypt(vec![]), Vec::<u8>::new());
    assert_eq!(cipher.decrypt(sample(300)), sample(300));
    assert_eq!(cipher.decrypt(vec![0xff, 0x00]), vec![0xff, 0x00]);
}

#[test]
fn enabled_cipher_recovers_the_plaintext() {
    let key = b"very secret key.";
    let plain = sample(1000);
    let wire = encrypt(key, &plain);
    assert_ne!(wire, plain);
    let mut cipher = Cipher::new();
    cipher.enable(key);
    assert_eq!(cipher.decrypt(wire), plain);
}

#[test]
fn enabled_cipher_keeps_its_state_between_chunks() {
    let key = b"0123456789abcdef";
    let plain = sample(257);
    let wire = encrypt(key, &plain);
    let mut cipher = Cipher::new();
    cipher.enable(key);
    let mut out = Vec::new();
    let mut at = 0;
    for size in [1usize, 2, 3, 15, 16, 17, 100, 103] {
        out.extend(cipher.decrypt(wire[at..at + size].to_vec()));
        at += size;
    }
    assert_eq!(at, wire.len());
    assert_eq!(out, plain);
}

#[test]
fn known_ciphertext() {
    let key = b"very secret key.";
    let iv_is_key = encrypt(key, b"The quick brown fox");
    let mut cipher = Cipher::new();
    cipher.enable(key);
    assert_eq!(cipher.decrypt(iv_is_key), b"The quick brown fox".to_vec());
    let mut cipher = Cipher::new();
    cipher.enable(key);
    let garbled = cipher.decrypt(b"The quick brown fox".to_vec());
    assert_ne!(garbled, b"The quick brown fox".to_vec());
    assert_eq!(garbled.len(), 19);
}

#[test]
fn disabling_returns_to_the_identity() {
    let mut cipher = Cipher::new();
    cipher.enable(b"0123456789abcdef");
    assert_ne!(cipher.decrypt(sample(20)), sample(20));
    cipher.disable();
    assert_eq!(cipher.decrypt(sample(20)), sample(20));
}
