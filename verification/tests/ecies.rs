//! Tests of the confidential channel: round trips and failing closed.

use statechain::decrypt;
use statechain::encrypt;
use statechain::generate_keypair;
use statechain::SeError;

#[test]
fn test_encrypt_decrypt_string() {
    let (sk, pk) = generate_keypair();
    let message = "This is a secret message.".as_bytes().to_vec();
    let ct = encrypt(&message, &pk).unwrap();
    let back = decrypt(&ct, &sk).unwrap();
    assert_eq!(back, message);
}

#[test]
fn test_encrypt_decrypt_struct() {
    struct TestStruct {
        first_item: String,
        second_item: u32,
    }
    let ts = TestStruct { first_item: "test message".to_string(), second_item: 42 };
    // A hand-rolled encoding of the struct: field, separator, field.
    let mut message = ts.first_item.as_bytes().to_vec();
    message.push(0);
    message.extend_from_slice(&ts.second_item.to_le_bytes());

    let (sk, pk) = generate_keypair();
    let ct = encrypt(&message, &pk).unwrap();
    let back = decrypt(&ct, &sk).unwrap();
    assert_eq!(back, message);

    let tail: [u8; 4] = back[back.len() - 4..].try_into().unwrap();
    assert_eq!(u32::from_le_bytes(tail), 42);
    assert_eq!(&back[..12], "test message".as_bytes());

    let ps = "This is a secret message.".as_bytes().to_vec();
    let ct2 = encrypt(&ps, &pk).unwrap();
    assert_eq!(decrypt(&ct2, &sk).unwrap(), ps);
}

#[test]
fn tampered_ciphertext_fails_closed() {
    let (sk, pk) = generate_keypair();
    let message = "payload".as_bytes().to_vec();
    let ct = encrypt(&message, &pk).unwrap();
    for i in 0..ct.len() {
        let mut bad = ct.clone();
        bad[i] ^= 1;
        match decrypt(&bad, &sk) {
            Err(SeError::CryptoError) => {}
            Err(other) => panic!("unexpected error: {:?}", other),
            Ok(m) => panic!("tampered byte {} decrypted to {:?}", i, m),
        }
    }
}

#[test]
fn wrong_key_fails_closed() {
    let (_sk1, pk1) = generate_keypair();
    let (sk2, _pk2) = generate_keypair();
    let message = vec![1u8, 2, 3, 4];
    let ct = encrypt(&message, &pk1).unwrap();
    assert_eq!(decrypt(&ct, &sk2).unwrap_err(), SeError::CryptoError);
}

fn bad_add(a: u64, b: u64) -> u64 {
    a + b
}

#[test]
fn test_bad_add() {
    // Private functions can be tested too.
    assert_eq!(bad_add(1, 2), 3);
}

#[test]
fn ecies_test_bad_add() {
    // Private functions can be tested too.
    assert_eq!(bad_add(1, 2), 3);
}

#[test]
fn keypair_shapes() {
    let (sk, pk) = generate_keypair();
    assert_eq!(sk.len(), 32);
    assert_eq!(pk.len(), 65);
}
