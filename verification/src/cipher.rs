//! The per-direction stream cipher: AES-128 in 8-bit cipher-feedback mode,
//! switched on once a key is known.

use vstd::prelude::*;
use aes::Aes128;
use cfb8::Cfb8;
use cfb8::cipher::{NewStreamCipher, StreamCipher};

verus! {

/// An instance of AES-128 in 8-bit cipher-feedback mode, as the `cfb8` and
/// `aes` crates provide it. What it holds is known only by the two names
/// below.
#[verifier::external_body]
pub struct AesCfb8 {
    inner: Cfb8<Aes128>,
}

/// The key that a cipher-feedback instance was made with.
pub uninterp spec fn cfb8_key(c: AesCfb8) -> Seq<u8>;

/// The shift register of a cipher-feedback instance: the initialization
/// vector at first, later the sixteen bytes of ciphertext seen last.
pub uninterp spec fn cfb8_register(c: AesCfb8) -> Seq<u8>;

/// The plaintext that AES-128 in 8-bit cipher-feedback mode gives for the
/// ciphertext `data` under `key`, starting from the shift register `register`.
pub uninterp spec fn cfb8_plaintext(key: Seq<u8>, register: Seq<u8>, data: Seq<u8>) -> Seq<u8>;

/// What an enabled cipher holds.
pub struct Keyed {
    pub key: Seq<u8>,
    pub register: Seq<u8>,
}

/// What decrypting `data` in the state `state` returns.
pub open spec fn plaintext(state: Option<Keyed>, data: Seq<u8>) -> Seq<u8> {
    match state {
        None => data,
        Some(k) => cfb8_plaintext(k.key, k.register, data),
    }
}

/// The state after `data` was decrypted in the state `state`: each byte of
/// ciphertext is shifted into the register.
pub open spec fn advanced(state: Option<Keyed>, data: Seq<u8>) -> Option<Keyed> {
    match state {
        None => None,
        Some(k) => Some(
            Keyed { key: k.key, register: (k.register + data).skip(data.len() as int) },
        ),
    }
}

/// A stream cipher that passes bytes through until it is enabled.
pub struct Cipher {
    encryptor: Option<AesCfb8>,
}

impl View for Cipher {
    type V = Option<Keyed>;

    closed spec fn view(&self) -> Option<Keyed> {
        match self.encryptor {
            None => None,
            Some(c) => Some(Keyed { key: cfb8_key(c), register: cfb8_register(c) }),
        }
    }
}

impl Cipher {
    /// A disabled cipher.
    pub fn new() -> (r: Self)
        ensures
            r@ is None,
    {
        Self { encryptor: None }
    }

    /// Decrypts `data`, the next bytes of the stream. A disabled cipher
    /// returns them unchanged.
    pub fn decrypt(&mut self, data: Vec<u8>) -> (r: Vec<u8>)
        ensures
            r@ == plaintext(old(self)@, data@),
            r@.len() == data@.len(),
            final(self)@ == advanced(old(self)@, data@),
    {
        let mut data = data;
        match &mut self.encryptor {
            Some(encryptor) => {
                cfb8_decrypt(encryptor, &mut data);
                data
            },
            None => data,
        }
    }

    /// Enables the cipher with `key`, which also serves as the
    /// initialization vector.
    pub fn enable(&mut self, key: &[u8])
        requires
            key@.len() == 16,
        ensures
            final(self)@ == Some(Keyed { key: key@, register: key@ }),
    {
        self.encryptor = cfb8_new(key);
    }

    /// Disables the cipher.
    pub fn disable(&mut self)
        ensures
            final(self)@ is None,
    {
        self.encryptor = None
    }
}

/// `Cfb8::<Aes128>::new_var` with the key as initialization vector: an
/// instance is made exactly when the key has sixteen bytes, and it starts
/// with the key in its shift register.
#[verifier::external_body]
fn cfb8_new(key: &[u8]) -> (r: Option<AesCfb8>)
    ensures
        r is Some <==> key@.len() == 16,
        r matches Some(c) ==> cfb8_key(c) == key@ && cfb8_register(c) == key@,
{
    match Cfb8::<Aes128>::new_var(key, key) {
        Ok(inner) => Some(AesCfb8 { inner }),
        Err(_) => None,
    }
}

/// `StreamCipher::decrypt` of `Cfb8<Aes128>`: the bytes are replaced in place
/// by their plaintext, the key stays, and the ciphertext is shifted into the
/// register byte by byte.
#[verifier::external_body]
fn cfb8_decrypt(c: &mut AesCfb8, data: &mut Vec<u8>)
    ensures
        final(data)@ == cfb8_plaintext(cfb8_key(*old(c)), cfb8_register(*old(c)), old(data)@),
        final(data)@.len() == old(data)@.len(),
        cfb8_key(*final(c)) == cfb8_key(*old(c)),
        cfb8_register(*final(c)) == (cfb8_register(*old(c)) + old(data)@).skip(
            old(data)@.len() as int,
        ),
{
    c.inner.decrypt(data.as_mut_slice());
}

} // verus!
