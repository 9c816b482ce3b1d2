//! The symmetric encryption engine: AES-256-GCM with a per-record nonce.

use vstd::prelude::*;

use crate::error::Error;
use crate::random::random_bytes;

use aes_gcm::aead::Aead;
use aes_gcm::Aes256Gcm;
use aes_gcm::KeyInit;

use vstd::utf8::encode_utf8;

verus! {

/// A plaintext short enough for one AES-256-GCM message: its UTF-8 bytes
/// (at most four per character) stay below the scheme's length cap.
pub open spec fn fits_aead(plaintext: Seq<char>) -> bool {
    plaintext.len() <= 0x1000_0000
}

/// The AES-256-GCM ciphertext (tag included) of a text under a key and a
/// nonce.  The construction is far too involved to write out; what matters
/// to the vault is that it is a function of the three arguments alone.
pub uninterp spec fn aes256gcm_ct(key: Seq<u8>, nonce: Seq<u8>, plaintext: Seq<char>) -> Seq<u8>;

/// What authenticated AES-256-GCM decryption yields for a key, a nonce and
/// a ciphertext: `None` exactly when the call rejects the ciphertext
/// (failed authentication or over-long input), otherwise the recovered
/// text (a recovered byte sequence that is not valid UTF-8 reads as the
/// empty string).
pub uninterp spec fn aes256gcm_pt(key: Seq<u8>, nonce: Seq<u8>, ciphertext: Seq<u8>) -> Option<
    Seq<char>,
>;

/// Relies on aes_gcm's `Aes256Gcm` through `Aead::encrypt`: with a 32-byte
/// key, a 12-byte nonce and a plaintext under the length cap the call
/// cannot fail (its only error is an over-long input); the ciphertext is a
/// function of the three arguments alone, is the plaintext's UTF-8 bytes
/// plus the 16-byte authentication tag long, and decrypting it under the
/// same key and nonce gives the plaintext back.
#[verifier::external_body]
fn aes_encrypt(key: &Vec<u8>, plaintext: &String, nonce: &Vec<u8>) -> (r: Vec<u8>)
    requires
        key@.len() == 32,
        nonce@.len() == 12,
        fits_aead(plaintext@),
    ensures
        r@ == aes256gcm_ct(key@, nonce@, plaintext@),
        r@.len() == encode_utf8(plaintext@).len() + 16,
        aes256gcm_pt(key@, nonce@, r@) == Some(plaintext@),
{
    let key_arr: &aes_gcm::Key<Aes256Gcm> = key.as_slice().try_into().unwrap();
    let nonce_arr: &aes_gcm::aead::Nonce<Aes256Gcm> = nonce.as_slice().try_into().unwrap();
    let cipher = Aes256Gcm::new(key_arr);
    cipher.encrypt(nonce_arr, plaintext.as_bytes()).unwrap()
}

/// Relies on aes_gcm's `Aes256Gcm` through `Aead::decrypt`: authenticated
/// decryption is a function of key, nonce and ciphertext alone, and fails
/// exactly when it rejects the ciphertext, never returning corrupted text.
#[verifier::external_body]
fn aes_decrypt(key: &Vec<u8>, cryptogram: &Vec<u8>, nonce: &Vec<u8>) -> (r: Option<String>)
    requires
        key@.len() == 32,
        nonce@.len() == 12,
    ensures
        r matches Some(s) ==> aes256gcm_pt(key@, nonce@, cryptogram@) == Some(s@),
        r is None ==> aes256gcm_pt(key@, nonce@, cryptogram@) is None,
{
    let key_arr: &aes_gcm::Key<Aes256Gcm> = key.as_slice().try_into().unwrap();
    let nonce_arr: &aes_gcm::aead::Nonce<Aes256Gcm> = nonce.as_slice().try_into().unwrap();
    let cipher = Aes256Gcm::new(key_arr);
    match cipher.decrypt(nonce_arr, cryptogram.as_slice()) {
        Ok(v) => Some(
            match String::from_utf8(v) {
                Ok(s) => s,
                Err(_) => String::new(),
            },
        ),
        Err(_) => None,
    }
}

/// Seals a secret under a 256-bit key and a fresh 96-bit nonce.  The
/// ciphertext is the secret's UTF-8 bytes plus the 16-byte authentication
/// tag long, and decrypts back to exactly the sealed text under the same
/// key and nonce (see [`decrypt`]).
pub fn encrypt(key: &Vec<u8>, plaintext: &String, nonce: &Vec<u8>) -> (r: Vec<u8>)
    requires
        key@.len() == 32,
        nonce@.len() == 12,
        fits_aead(plaintext@),
    ensures
        r@ == aes256gcm_ct(key@, nonce@, plaintext@),
        r@.len() == encode_utf8(plaintext@).len() + 16,
        aes256gcm_pt(key@, nonce@, r@) == Some(plaintext@),
{
    aes_encrypt(key, plaintext, nonce)
}

/// Opens a sealed secret.  Fails with [`Error::DecryptionFailed`] exactly
/// when authenticated decryption rejects the ciphertext (tampered data,
/// wrong key or wrong nonce) rather than returning corrupted text.
pub fn decrypt(key: &Vec<u8>, cryptogram: &Vec<u8>, nonce: &Vec<u8>) -> (r: Result<String, Error>)
    requires
        key@.len() == 32,
        nonce@.len() == 12,
    ensures
        r matches Ok(s) ==> aes256gcm_pt(key@, nonce@, cryptogram@) == Some(s@),
        r matches Err(e) ==> e == Error::DecryptionFailed && aes256gcm_pt(
            key@,
            nonce@,
            cryptogram@,
        ) is None,
{
    match aes_decrypt(key, cryptogram, nonce) {
        Some(s) => Ok(s),
        None => Err(Error::DecryptionFailed),
    }
}

/// Draws the fresh 12-byte nonce that every encryption call must consume;
/// the bytes are drawn uniformly over the full nonce space (not from a
/// printable alphabet, which would shrink the scheme's security margin)
/// and are stored alongside the ciphertext they protected.
pub fn create_nonce() -> (r: Vec<u8>)
    ensures
        r@.len() == 12,
{
    random_bytes(12)
}

} // verus!
