use hkdf::Hkdf;
use sha2::{Digest, Sha256};

use mutual_handshake::aead::encrypt;
use mutual_handshake::dhke::{shared_secret, DHkeypair};
use mutual_handshake::error::HandshakeError;
use mutual_handshake::handshake::{issue_certificate, ClientSession, HandshakeState, ServerFlight, ServerSession};
use mutual_handshake::key_extract::{DeriveHS, KeySchedule_1, KeySchedule_2, KeySchedule_3};
use mutual_handshake::signdemo::keypair_from_secret;
use mutual_handshake::transcript::Label;
use mutual_handshake::vec_bytes::{encode, split_decrypted};

const CA_SEED: [u8; 32] = [0x11; 32];
const SERVER_SIGN_SEED: [u8; 32] = [0x22; 32];
const CLIENT_NONCE: [u8; 32] = [0x33; 32];
const CLIENT_DH_SEED: [u8; 32] = [0x44; 32];
const SERVER_NONCE: [u8; 32] = [0x55; 32];
const SERVER_DH_SEED: [u8; 32] = [0x66; 32];

fn parties() -> (ClientSession, ServerSession) {
    let ca = keypair_from_secret(CA_SEED);
    let server_sign = keypair_from_secret(SERVER_SIGN_SEED);
    let cert = issue_certificate(&ca.sk, &server_sign.pk);
    let client = ClientSession::new(CLIENT_NONCE, DHkeypair::from_secret_bytes(CLIENT_DH_SEED), ca.pk);
    let server = ServerSession::new(SERVER_NONCE, DHkeypair::from_secret_bytes(SERVER_DH_SEED), server_sign.sk, cert);
    (client, server)
}

fn expected_hs(ss: &[u8]) -> [u8; 32] {
    let zeros = [0u8; 32];
    let (es, _) = Hkdf::<Sha256>::extract(Some(&zeros), &zeros);
    let mut des = [0u8; 32];
    Hkdf::<Sha256>::from_prk(&es).unwrap().expand(b"DerivedES", &mut des).unwrap();
    let (hs, _) = Hkdf::<Sha256>::extract(Some(&des), ss);
    hs.into()
}

fn expand(prk: &[u8], info: &[u8]) -> [u8; 32] {
    let mut out = [0u8; 32];
    Hkdf::<Sha256>::from_prk(prk).unwrap().expand(info, &mut out).unwrap();
    out
}

#[test]
fn handshake_end_to_end() {
    let (mut client, mut server) = parties();
    assert_eq!(client.state(), HandshakeState::Init);
    let hello = client.hello();
    let flight = server.respond(&hello).unwrap();
    assert_eq!(server.state(), HandshakeState::KeyExchanged);
    assert_eq!(flight.nonce, SERVER_NONCE);
    assert_eq!(flight.ciphertext.len(), 192 + 16);
    client.receive_server_flight(&flight).unwrap();
    assert_eq!(client.state(), HandshakeState::ServerAuthenticated);
    assert_eq!(server.session_keys(), None);
    let finished = client.client_finished().unwrap();
    assert_eq!(client.state(), HandshakeState::Established);
    server.receive_client_finished(&finished).unwrap();
    assert_eq!(server.state(), HandshakeState::Established);
    let client_keys = client.session_keys().unwrap();
    let server_keys = server.session_keys().unwrap();
    assert_eq!(client_keys.0, server_keys.0);
    assert_eq!(client_keys.1, server_keys.1);
    assert_ne!(client_keys.0, client_keys.1);
}

#[test]
fn handshake_tampered_server_flight() {
    let (mut client, mut server) = parties();
    let hello = client.hello();
    let mut flight = server.respond(&hello).unwrap();
    flight.ciphertext[17] ^= 0x01;
    assert_eq!(client.receive_server_flight(&flight), Err(HandshakeError::CryptoFailure));
    assert_eq!(client.state(), HandshakeState::Failed(HandshakeError::CryptoFailure));
    assert_eq!(client.session_keys(), None);
    assert_eq!(client.client_finished(), Err(HandshakeError::ProtocolViolation));
}

#[test]
fn handshake_wrong_authority() {
    let (_, mut server) = parties();
    let other_ca = keypair_from_secret([0x77; 32]);
    let mut client = ClientSession::new(CLIENT_NONCE, DHkeypair::from_secret_bytes(CLIENT_DH_SEED), other_ca.pk);
    let flight = server.respond(&client.hello()).unwrap();
    assert_eq!(client.receive_server_flight(&flight), Err(HandshakeError::AuthenticationFailure));
    assert_eq!(client.state(), HandshakeState::Failed(HandshakeError::AuthenticationFailure));
}

#[test]
fn handshake_malformed_server_payload() {
    let (mut client, server_unused) = parties();
    drop(server_unused);
    let hello = client.hello();
    let server_dh = DHkeypair::from_secret_bytes(SERVER_DH_SEED);
    let server_pk = server_dh.pk;
    let ss = shared_secret(server_dh.sk, &hello.pk);
    let (_, k1s) = KeySchedule_1(&ss);
    let nonce12: [u8; 12] = SERVER_NONCE[..12].try_into().unwrap();
    let ciphertext = encrypt(&k1s, &nonce12, &[0u8; 191], b"").unwrap();
    let flight = ServerFlight { nonce: SERVER_NONCE, pk: server_pk, ciphertext };
    assert_eq!(client.receive_server_flight(&flight), Err(HandshakeError::MalformedMessage));
}

#[test]
fn handshake_tampered_client_finished() {
    let (mut client, mut server) = parties();
    let flight = server.respond(&client.hello()).unwrap();
    client.receive_server_flight(&flight).unwrap();
    let mut finished = client.client_finished().unwrap();
    finished[0] ^= 0x80;
    assert_eq!(server.receive_client_finished(&finished), Err(HandshakeError::CryptoFailure));
    assert_eq!(server.session_keys(), None);
}

#[test]
fn handshake_forged_client_mac() {
    let (mut client, mut server) = parties();
    let flight = server.respond(&client.hello()).unwrap();
    client.receive_server_flight(&flight).unwrap();
    let client_dh = DHkeypair::from_secret_bytes(CLIENT_DH_SEED);
    let ss = shared_secret(client_dh.sk, &flight.pk);
    let (k1c, _) = KeySchedule_1(&ss);
    let nonce12: [u8; 12] = CLIENT_NONCE[..12].try_into().unwrap();
    let forged = encrypt(&k1c, &nonce12, &[0u8; 32], b"").unwrap();
    assert_eq!(server.receive_client_finished(&forged), Err(HandshakeError::AuthenticationFailure));
    assert_eq!(server.state(), HandshakeState::Failed(HandshakeError::AuthenticationFailure));
}

#[test]
fn handshake_secret_single_use() {
    let (mut client, mut server) = parties();
    let hello = client.hello();
    let flight = server.respond(&hello).unwrap();
    assert!(matches!(server.respond(&hello), Err(HandshakeError::ProtocolViolation)));
    assert_eq!(server.state(), HandshakeState::Failed(HandshakeError::ProtocolViolation));
    client.receive_server_flight(&flight).unwrap();
    assert_eq!(client.receive_server_flight(&flight), Err(HandshakeError::ProtocolViolation));
}

#[test]
fn handshake_out_of_order_calls() {
    let (mut client, mut server) = parties();
    assert_eq!(client.client_finished(), Err(HandshakeError::ProtocolViolation));
    assert_eq!(server.receive_client_finished(&[0u8; 48]), Err(HandshakeError::ProtocolViolation));
}

#[test]
fn derive_hs_matches_hkdf() {
    let ss = [0x5au8; 32];
    assert_eq!(DeriveHS(&ss), expected_hs(&ss));
    assert_ne!(DeriveHS(&ss), ss);
}

#[test]
fn key_schedule_tiers_match_hkdf() {
    let ss = [0xa5u8; 32];
    let hs = expected_hs(&ss);
    let (k1c, k1s) = KeySchedule_1(&ss);
    assert_eq!(k1c, expand(&hs, b"ClientKE"));
    assert_eq!(k1s, expand(&hs, b"ServerKE"));

    let (nc, pkc, ns, pks) = ([1u8; 32], [2u8; 32], [3u8; 32], [4u8; 32]);
    let fields = [&nc[..], &pkc[..], &ns[..], &pks[..]].concat();
    let (k2c, k2s) = KeySchedule_2(&nc, &pkc, &ns, &pks, &ss);
    let hc: [u8; 32] = Sha256::digest([&fields[..], b"ClientKC"].concat()).into();
    let hsrv: [u8; 32] = Sha256::digest([&fields[..], b"ServerKC"].concat()).into();
    assert_eq!(k2c, expand(&hs, &hc));
    assert_eq!(k2s, expand(&hs, &hsrv));

    let (sig, cert, mac) = ([5u8; 64], [6u8; 96], [7u8; 32]);
    let (k3c, k3s) = KeySchedule_3(&nc, &pkc, &ns, &pks, &ss, &sig, &cert, &mac);
    let dhs = expand(&hs, b"DerivedHS");
    let (ms, _) = Hkdf::<Sha256>::extract(Some(&[0u8; 32]), &dhs);
    let all = [&fields[..], &sig[..], &cert[..], &mac[..]].concat();
    let h3c: [u8; 32] = Sha256::digest([&all[..], b"ClientEnck"].concat()).into();
    let h3s: [u8; 32] = Sha256::digest([&all[..], b"ServerEnck"].concat()).into();
    assert_eq!(k3c, expand(&ms, &h3c));
    assert_eq!(k3s, expand(&ms, &h3s));
}

#[test]
fn key_schedule_agreement_for_equal_inputs() {
    for seed in 0u8..8 {
        let ss = [seed; 32];
        let (nc, pkc, ns, pks) = ([seed ^ 1; 32], [seed ^ 2; 32], [seed ^ 3; 32], [seed ^ 4; 32]);
        assert_eq!(KeySchedule_1(&ss), KeySchedule_1(&ss.clone()));
        assert_eq!(KeySchedule_2(&nc, &pkc, &ns, &pks, &ss), KeySchedule_2(&nc, &pkc, &ns, &pks, &ss.clone()));
        let (sig, cert, mac) = ([seed; 64], [seed; 96], [seed; 32]);
        assert_eq!(
            KeySchedule_3(&nc, &pkc, &ns, &pks, &ss, &sig, &cert, &mac),
            KeySchedule_3(&nc, &pkc, &ns, &pks, &ss.clone(), &sig, &cert, &mac)
        );
    }
    assert_ne!(KeySchedule_1(&[1u8; 32]), KeySchedule_1(&[2u8; 32]));
}

#[test]
fn label_separation_of_mac_keys() {
    let ss = [0x42u8; 32];
    let (k2c, k2s) = KeySchedule_2(&[1u8; 32], &[2u8; 32], &[3u8; 32], &[4u8; 32], &ss);
    assert_ne!(k2c, k2s);
    let hs = DeriveHS(&ss);
    assert_ne!(expand(&hs, b"ClientKC"), expand(&hs, b"ServerKC"));
    assert_eq!(Label::ClientKC.bytes(), b"ClientKC".to_vec());
    assert_eq!(Label::ServerKC.bytes(), b"ServerKC".to_vec());
    assert_eq!(Label::ClientEnck.bytes(), b"ClientEnck".to_vec());
    assert_eq!(Label::DerivedES.bytes(), b"DerivedES".to_vec());
    assert_eq!(Label::ServerSig.bytes(), b"ServerSig".to_vec());
}

#[test]
fn codec_round_trip() {
    let cert = [0xc1u8; 96];
    let sig = [0x51u8; 64];
    let mut mac = [0u8; 32];
    mac[31] = 0xff;
    let bytes = encode(&cert, &sig, &mac);
    assert_eq!(bytes.len(), 192);
    assert_eq!(split_decrypted(bytes), Ok((cert, sig, mac)));
}

#[test]
fn codec_rejects_wrong_lengths() {
    for len in [0usize, 1, 96, 191, 193, 400] {
        assert_eq!(split_decrypted(vec![0u8; len]), Err(HandshakeError::MalformedMessage));
    }
}
