use sha2::Digest;

use iotedged::keystore::{hmac_sha256, DerivedKeyStore};

/// Plain reference HMAC-SHA256, written out against the digest crate.
fn reference_hmac(key: &[u8], msg: &[u8]) -> Vec<u8> {
    let mut block = if key.len() > 64 {
        sha2::Sha256::digest(key).as_slice().to_vec()
    } else {
        key.to_vec()
    };
    block.resize(64, 0);
    let ipad: Vec<u8> = block.iter().map(|b| b ^ 0x36).collect();
    let opad: Vec<u8> = block.iter().map(|b| b ^ 0x5c).collect();
    let mut inner = ipad;
    inner.extend_from_slice(msg);
    let inner_hash = sha2::Sha256::digest(&inner);
    let mut outer = opad;
    outer.extend_from_slice(inner_hash.as_slice());
    sha2::Sha256::digest(&outer).as_slice().to_vec()
}

#[test]
fn hmac_matches_the_published_test_vector() {
    // HMAC-SHA256 with a 20-byte key of 0x0b over "Hi There".
    let key = vec![0x0bu8; 20];
    let msg = b"Hi There".to_vec();
    let expected: Vec<u8> = vec![
        0xb0, 0x34, 0x4c, 0x61, 0xd8, 0xdb, 0x38, 0x53, 0x5c, 0xa8, 0xaf, 0xce, 0xaf, 0x0b, 0xf1,
        0x2b, 0x88, 0x1d, 0xc2, 0x00, 0xc9, 0x83, 0x3d, 0xa7, 0x26, 0xe9, 0x37, 0x6c, 0x2e, 0x32,
        0xcf, 0xf7,
    ];
    assert_eq!(hmac_sha256(&key, &msg), expected);
}

#[test]
fn hmac_matches_reference_for_short_key() {
    let key = b"Jefe".to_vec();
    let msg = b"what do ya want for nothing?".to_vec();
    assert_eq!(hmac_sha256(&key, &msg), reference_hmac(&key, &msg));
}

#[test]
fn hmac_hashes_a_key_longer_than_one_block() {
    let key = vec![0xaau8; 131];
    let msg = b"Test Using Larger Than Block-Size Key - Hash Key First".to_vec();
    assert_eq!(hmac_sha256(&key, &msg), reference_hmac(&key, &msg));
}

#[test]
fn derived_keys_depend_on_identity_and_name() {
    let store = DerivedKeyStore::new(vec![1, 2, 3, 4]);
    let device_primary = store.get("device", "primary");
    assert_eq!(device_primary.len(), 32);
    assert_eq!(store.get("device", "primary"), device_primary);
    assert_ne!(store.get("device", "secondary"), device_primary);
    assert_ne!(store.get("$edgeAgent", "primary"), device_primary);
    let expected = reference_hmac(&[1, 2, 3, 4], b"deviceprimary");
    assert_eq!(device_primary, expected);
}
