//! Tests of the random generator, the hashing engine and the encryption
//! engine.

use pswdmng::encryption::create_nonce;
use pswdmng::encryption::decrypt;
use pswdmng::encryption::encrypt;
use pswdmng::hashcode::sha3_512_hashcode;
use pswdmng::random::create_ascii_str;
use pswdmng::Error;

fn test_key() -> Vec<u8> {
    String::from("12345678901234567890123456789012").as_bytes().to_vec()
}

#[test]
fn test_create_ascii_str() {
    let len: usize = 16;
    let result = create_ascii_str(len);
    assert_eq!(result.len(), len);
    assert_ne!(result, create_ascii_str(len));
    assert_ne!(result, create_ascii_str(len));
}

#[test]
fn test_create_ascii_str_printable() {
    let s = create_ascii_str(94);
    assert_eq!(s.len(), 94);
    for c in s.chars() {
        assert!(c >= ' ' && c <= '~');
    }
    assert_eq!(create_ascii_str(0).len(), 0);
}

#[test]
fn test_hash_code() {
    let raw = "raw";
    let salt = "salt";
    assert_eq!(
        sha3_512_hashcode(&String::from(raw), &String::from(salt)),
        sha3_512_hashcode(&String::from(raw), &String::from(salt))
    );
}

#[test]
fn test_hash_code_length_and_salting() {
    let hash = sha3_512_hashcode(&String::from("raw"), &String::from("salt"));
    assert_eq!(hash.len(), 64);
    // A different salt yields an unrelated verifier for the same password.
    let other = sha3_512_hashcode(&String::from("raw"), &String::from("salt2"));
    assert_ne!(hash, other);
    // The digest is not the hashed text itself.
    assert_ne!(hash, "rawsalt".as_bytes().to_vec());
}

#[test]
fn test_create_nonce() {
    let nonce = create_nonce();
    assert_eq!(nonce.len(), 12);
    assert_ne!(nonce, create_nonce());
}

#[test]
fn test_module() {
    let nonce = create_nonce();
    let key = String::from("12345678901234567890123456789012");
    let cryptogram = encrypt(
        &key.as_bytes().to_vec(),
        &String::from("plaintext"),
        &nonce,
    );
    assert_eq!(
        decrypt(&key.as_bytes().to_vec(), &cryptogram, &nonce).unwrap(),
        String::from("plaintext")
    );
}

#[test]
fn test_encrypt_hides_plaintext() {
    let nonce = create_nonce();
    let cryptogram = encrypt(&test_key(), &String::from("plaintext"), &nonce);
    assert_ne!(cryptogram, "plaintext".as_bytes().to_vec());
    // The ciphertext is the plaintext's UTF-8 bytes plus the 16-byte tag.
    assert_eq!(cryptogram.len(), "plaintext".len() + 16);
    // Round trip of the empty secret too.
    let empty = encrypt(&test_key(), &String::new(), &nonce);
    assert_eq!(decrypt(&test_key(), &empty, &nonce).unwrap(), String::new());
}

#[test]
fn test_tampered_ciphertext_fails() {
    let nonce = create_nonce();
    let cryptogram = encrypt(&test_key(), &String::from("plaintext"), &nonce);
    for i in 0..cryptogram.len() {
        for bit in 0..8 {
            let mut tampered = cryptogram.clone();
            tampered[i] ^= 1u8 << bit;
            assert_eq!(
                decrypt(&test_key(), &tampered, &nonce),
                Err(Error::DecryptionFailed)
            );
        }
    }
}

#[test]
fn test_tampered_nonce_fails() {
    let nonce = create_nonce();
    let cryptogram = encrypt(&test_key(), &String::from("plaintext"), &nonce);
    for i in 0..nonce.len() {
        for bit in 0..8 {
            let mut wrong_nonce = nonce.clone();
            wrong_nonce[i] ^= 1u8 << bit;
            assert_eq!(
                decrypt(&test_key(), &cryptogram, &wrong_nonce),
                Err(Error::DecryptionFailed)
            );
        }
    }
}

#[test]
fn test_wrong_key_fails() {
    let nonce = create_nonce();
    let cryptogram = encrypt(&test_key(), &String::from("plaintext"), &nonce);
    let wrong_key = String::from("X2345678901234567890123456789012").as_bytes().to_vec();
    assert_eq!(
        decrypt(&wrong_key, &cryptogram, &nonce),
        Err(Error::DecryptionFailed)
    );
}
