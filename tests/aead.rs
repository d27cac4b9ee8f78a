use mutual_handshake::aead::{decrypt, encrypt};
use rand::{rngs::OsRng, RngCore};

#[test]
fn roundtrip_ok() {
    let mut key = [0u8; 32];
    OsRng.fill_bytes(&mut key);
    let mut nonce = [0u8; 12];
    OsRng.fill_bytes(&mut nonce);

    let ad = b"header";
    let pt = b"hello AEAD";

    let ct = encrypt(&key, &nonce, pt, ad).unwrap();
    let dec = decrypt(&key, &nonce, &ct, ad).unwrap();
    assert_eq!(dec, pt);
}

#[test]
fn tamper_ciphertext_fails() {
    let mut key = [0u8; 32];
    OsRng.fill_bytes(&mut key);
    let mut nonce = [0u8; 12];
    OsRng.fill_bytes(&mut nonce);

    let ad = b"hdr";
    let pt = b"attack at dawn";
    let mut ct = encrypt(&key, &nonce, pt, ad).unwrap();
    ct[0] ^= 0x01;

    assert!(decrypt(&key, &nonce, &ct, ad).is_err());
}

#[test]
fn wrong_ad_fails() {
    let mut key = [0u8; 32];
    OsRng.fill_bytes(&mut key);
    let mut nonce = [0u8; 12];
    OsRng.fill_bytes(&mut nonce);

    let pt = b"msg";
    let ct = encrypt(&key, &nonce, pt, b"AD1").unwrap();
    assert!(decrypt(&key, &nonce, &ct, b"AD2").is_err());
}

#[test]
fn aead_round_trip_empty_inputs() {
    let key = [7u8; 32];
    let nonce = [9u8; 12];
    let ct = encrypt(&key, &nonce, b"", b"").unwrap();
    assert_eq!(ct.len(), 16);
    assert_eq!(decrypt(&key, &nonce, &ct, b"").unwrap(), Vec::<u8>::new());
}

#[test]
fn aead_ciphertext_differs_from_plaintext() {
    let key = [1u8; 32];
    let nonce = [2u8; 12];
    let pt = b"sixteen byte msg";
    let ct = encrypt(&key, &nonce, pt, b"").unwrap();
    assert_eq!(ct.len(), pt.len() + 16);
    assert_ne!(&ct[..pt.len()], &pt[..]);
}

#[test]
fn aead_single_bit_flips_fail() {
    let key = [3u8; 32];
    let nonce = [4u8; 12];
    let pt = b"flight payload";
    let ad = b"ad";
    let ct = encrypt(&key, &nonce, pt, ad).unwrap();
    for i in 0..ct.len() {
        let mut bad = ct.clone();
        bad[i] ^= 0x80;
        assert!(decrypt(&key, &nonce, &bad, ad).is_err());
    }
    let mut bad_key = key;
    bad_key[31] ^= 1;
    assert!(decrypt(&bad_key, &nonce, &ct, ad).is_err());
    let mut bad_nonce = nonce;
    bad_nonce[0] ^= 1;
    assert!(decrypt(&key, &bad_nonce, &ct, ad).is_err());
    assert!(decrypt(&key, &nonce, &ct, b"ae").is_err());
    assert!(decrypt(&key, &nonce, &ct[..10], ad).is_err());
}
