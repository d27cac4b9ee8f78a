use mutual_handshake::dhke::{shared_secret, DHkeypair};
use mutual_handshake::encode_b64::{b64, from_b64, Base64Error};
use mutual_handshake::hmac::{compute_hmac_sha256, verify_hmac_sha256};
use mutual_handshake::key_extract::hashValue;
use mutual_handshake::signdemo::{keygen, keypair_from_secret, sign, verify};

fn unhex(s: &str) -> Vec<u8> {
    hex::decode(s).unwrap()
}

#[test]
fn sign_then_verify() {
    let kp = keygen();
    let msg = b"hello";
    let sig = sign(&kp.sk, msg);
    assert!(verify(&kp.pk, msg, &sig));
    assert!(!verify(&kp.pk, b"random message", &sig));
}

#[test]
fn x25519_shared_secret_matches() {
    let alice = DHkeypair::keygen();
    let bob = DHkeypair::keygen();
    let ss_alice_bob = shared_secret(alice.sk, &bob.pk);
    let ss_bob_alice = shared_secret(bob.sk, &alice.pk);
    assert_eq!(ss_alice_bob, ss_bob_alice);
}

#[test]
fn x25519_known_answer() {
    let alice_sk: [u8; 32] = unhex("77076d0a7318a57d3c16c17251b26645df4c2f87ebc0992ab177fba51db92c2a").try_into().unwrap();
    let bob_sk: [u8; 32] = unhex("5dab087e624a8a4b79e17f8b83800ee66f3bb1292618b6fd1c2f8b27ff88e0eb").try_into().unwrap();
    let alice = DHkeypair::from_secret_bytes(alice_sk);
    let bob = DHkeypair::from_secret_bytes(bob_sk);
    assert_eq!(alice.pk.to_vec(), unhex("8520f0098930a754748b7ddcb43ef75a0dbf3a0d26381af4eba4a98eaa9b4e6a"));
    assert_eq!(bob.pk.to_vec(), unhex("de9edb7d7b7dc1b4d35b61c2ece435373f8343c85b78674dadfc7e146f882b4f"));
    let expected = unhex("4a5d9d5ba4ce2de1728e3bf480350f25e07e21c947d19e3376f09b3c1e161742");
    let bob_pk = bob.pk;
    let alice_pk = alice.pk;
    assert_eq!(shared_secret(alice.sk, &bob_pk).to_vec(), expected);
    assert_eq!(shared_secret(bob.sk, &alice_pk).to_vec(), expected);
}

#[test]
fn ed25519_known_answer() {
    let sk: [u8; 32] = unhex("9d61b19deffd5a60ba844af492ec2cc44449c5697b326919703bac031cae7f60").try_into().unwrap();
    let kp = keypair_from_secret(sk);
    assert_eq!(kp.pk.to_vec(), unhex("d75a980182b10ab7d54bfed3c964073a0ee172f3daa62325af021a68f707511a"));
    let sig = sign(&kp.sk, b"");
    assert_eq!(
        sig.to_vec(),
        unhex("e5564300c360ac729086e2cc806e828a84877f1eb8e5d974d873e065224901555fb8821590a33bacc61e39701cf9b46bd25bf5f0595bbe24655141438e7a100b")
    );
    assert!(verify(&kp.pk, b"", &sig));
    let mut bad = sig;
    bad[0] ^= 1;
    assert!(!verify(&kp.pk, b"", &bad));
}

#[test]
fn sha256_known_answer() {
    assert_eq!(
        hashValue(b"abc").to_vec(),
        unhex("ba7816bf8f01cfea414140de5dae2223b00361a396177a9cb410ff61f20015ad")
    );
    assert_eq!(
        hashValue(b"").to_vec(),
        unhex("e3b0c44298fc1c149afbf4c8996fb92427ae41e4649b934ca495991b7852b855")
    );
}

#[test]
fn hmac_known_answer() {
    let tag = compute_hmac_sha256(b"Jefe", b"what do ya want for nothing?");
    assert_eq!(
        tag.to_vec(),
        unhex("5bdcc146bf60754e6a042426089575c75a003f089d2739839dec58b964ec3843")
    );
    assert!(verify_hmac_sha256(b"Jefe", b"what do ya want for nothing?", &tag));
    let mut bad = tag;
    bad[5] ^= 1;
    assert!(!verify_hmac_sha256(b"Jefe", b"what do ya want for nothing?", &bad));
    assert!(!verify_hmac_sha256(b"Jefe", b"what do ya want for nothing?", &tag[..31]));
    assert!(!verify_hmac_sha256(b"Jeff", b"what do ya want for nothing?", &tag));
}

#[test]
fn base64_encode_decode() {
    assert_eq!(b64(b"hello"), "aGVsbG8=");
    assert_eq!(b64(b""), "");
    assert_eq!(from_b64("aGVsbG8=").unwrap(), b"hello".to_vec());
    assert_eq!(from_b64("aGVsbG8"), Err(Base64Error));
    assert_eq!(from_b64("aGVsbG9="), Err(Base64Error));
    assert_eq!(from_b64("*"), Err(Base64Error));
}
