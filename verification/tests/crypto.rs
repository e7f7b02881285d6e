//! Keys, hashes and their hexadecimal text.

use exonum_lvm::crypto::{self, PublicKey, BYTES_IN_DEBUG, HASH_SIZE, PUBLIC_KEY_LENGTH};

#[test]
fn zero_key() {
    let key = PublicKey::zero();
    assert_eq!(key.as_bytes(), &[0u8; 32]);
    assert_eq!(key, PublicKey::new([0; 32]));
    assert_ne!(key, PublicKey::new([1; 32]));
    assert_eq!(PUBLIC_KEY_LENGTH, 32);
    assert_eq!(HASH_SIZE, 32);
    assert_eq!(BYTES_IN_DEBUG, 4);
}

#[test]
fn keys_differ_in_any_byte() {
    let mut bytes = [7u8; 32];
    let key = PublicKey::new(bytes);
    bytes[31] = 8;
    assert_ne!(key, PublicKey::new(bytes));
    bytes[31] = 7;
    bytes[0] = 6;
    assert_ne!(key, PublicKey::new(bytes));
    bytes[0] = 7;
    assert_eq!(key, PublicKey::new(bytes));
}

#[test]
fn key_from_slice() {
    let bytes: Vec<u8> = (0..32).collect();
    let key = PublicKey::from_slice(&bytes).unwrap();
    assert_eq!(&key.as_bytes()[..], &bytes[..]);
    assert!(PublicKey::from_slice(&bytes[..31]).is_none());
    assert!(PublicKey::from_slice(&[]).is_none());
    let long: Vec<u8> = (0..33).collect();
    assert!(PublicKey::from_slice(&long).is_none());
}

#[test]
fn key_to_hex() {
    let bytes: Vec<u8> = (0..32).map(|i| i * 8 + 1).collect();
    let key = PublicKey::from_slice(&bytes).unwrap();
    assert_eq!(
        key.to_hex(),
        "0109111921293139414951596169717981899199a1a9b1b9c1c9d1d9e1e9f1f9"
    );
    assert_eq!(key.to_short_hex(), "01091119...");
    assert_eq!(PublicKey::zero().to_short_hex(), "00000000...");
}

#[test]
fn hex_text_decodes_to_the_key() {
    let key = PublicKey::new([0xfe; 32]);
    let decoded = hex::decode(key.to_hex()).unwrap();
    assert_eq!(PublicKey::from_slice(&decoded), Some(key));
}

#[test]
fn hashes() {
    let hash = crypto::Hash::zero();
    assert_eq!(hash.as_bytes(), &[0u8; 32]);
    assert_eq!(hash, crypto::Hash::new([0; 32]));
    assert_ne!(hash, crypto::Hash::new([1; 32]));
    let bytes: Vec<u8> = (100..132).collect();
    let hash = crypto::Hash::from_slice(&bytes).unwrap();
    assert_eq!(&hash.as_bytes()[..], &bytes[..]);
    assert!(crypto::Hash::from_slice(&bytes[1..]).is_none());
    assert_eq!(
        hash.to_hex(),
        "6465666768696a6b6c6d6e6f707172737475767778797a7b7c7d7e7f80818283"
    );
    assert_eq!(hash.to_short_hex(), "64656667...");
}
