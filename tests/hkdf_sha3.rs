use hkdf::Hkdf;
use sha3::Sha3_256;

use mutual_handshake::hkdf_sha3::{derive_aes256gcm_key, expand, extract, OutputTooLong};

#[test]
fn derive_key_matches_hkdf_sha3() {
    let seed = [0x0bu8; 22];
    let salt = [1u8, 2, 3, 4];
    let mut expected = [0u8; 32];
    Hkdf::<Sha3_256>::new(Some(&salt), &seed).expand(b"ctx", &mut expected).unwrap();
    assert_eq!(derive_aes256gcm_key(&seed, Some(&salt), b"ctx"), expected);
    assert_ne!(derive_aes256gcm_key(&seed, Some(&salt), b"ctx"), derive_aes256gcm_key(&seed, Some(&salt), b"ctx2"));
}

#[test]
fn missing_salt_is_zero_salt() {
    let seed = b"input keying material";
    assert_eq!(extract(None, seed), extract(Some(&[0u8; 32]), seed));
    assert_eq!(derive_aes256gcm_key(seed, None, b"c"), derive_aes256gcm_key(seed, Some(&[0u8; 32]), b"c"));
    let (prk, _) = Hkdf::<Sha3_256>::extract(None, seed);
    assert_eq!(extract(None, seed).to_vec(), prk.to_vec());
}

#[test]
fn expand_length_limit() {
    let prk = extract(Some(b"salt"), b"ikm");
    let longest: Result<[u8; 8160], OutputTooLong> = expand(&prk, b"info");
    assert!(longest.is_ok());
    let too_long: Result<[u8; 8161], OutputTooLong> = expand(&prk, b"info");
    assert_eq!(too_long.err(), Some(OutputTooLong));
    let short: [u8; 16] = expand(&prk, b"info").unwrap();
    let mut expected = [0u8; 16];
    Hkdf::<Sha3_256>::from_prk(&prk).unwrap().expand(b"info", &mut expected).unwrap();
    assert_eq!(short, expected);
}
