//! The handshake orchestrator. Each party runs a session object that owns its
//! nonce, its consumable DH secret, the negotiated values and an explicit
//! state; every phase is a method that checks the state it is called in.
//!
//! Flights: the client sends its nonce and DH public key; the server answers
//! with its nonce, its DH public key and an AES-GCM sealed message
//! certificate || signature || MAC; the client answers with its sealed
//! Finished MAC. The certificate is the server's Ed25519 verifying key
//! followed by an authority's signature over it, and the client checks it
//! against the authority's key. The server signs the key-exchange fields
//! under their own label, and the MAC transcripts include the certificate.
//! A flight longer than the AEAD limit is refused as a crypto failure.
use vstd::prelude::*;

use crate::aead::{decrypt, encrypt, opened, opens};
use crate::dhke::{dh_public_of, shared_secret, DHkeypair, DhSecret};
use crate::error::HandshakeError;
use crate::hmac::{compute_hmac_sha256, verify_hmac_sha256};
use crate::key_extract::{tier1, tier2, tier3, KeySchedule_1, KeySchedule_2, KeySchedule_3};
use crate::primitives::{aes_gcm_seal_of, AEAD_MAX_LEN, ed25519_sign_of, ed25519_verify_of, hmac_sha256_of, x25519_of};
use crate::signdemo::{sign, verify};
use crate::transcript::{append_bytes, exchange_fields, exchange_transcript, transcript_hash, transcript_hash_of, Label};
use crate::vec_bytes::{encode, encoded, split_decrypted, take_array, MSG_LEN};

verus! {

/// Where a session stands.
#[derive(Clone, Copy, Debug, PartialEq, Eq, Structural)]
pub enum HandshakeState {
    Init,
    KeyExchanged,
    ServerAuthenticated,
    Established,
    Failed(HandshakeError),
}

/// The client's first flight.
pub struct ClientHello {
    pub nonce: [u8; 32],
    pub pk: [u8; 32],
}

/// The server's flight: its nonce, its DH public key and the sealed
/// certificate, signature and MAC.
pub struct ServerFlight {
    pub nonce: [u8; 32],
    pub pk: [u8; 32],
    pub ciphertext: Vec<u8>,
}

/// The values a session has exchanged and derived.
#[derive(Clone, Copy)]
pub struct Negotiated {
    pub nonce_c: [u8; 32],
    pub pk_c: [u8; 32],
    pub nonce_s: [u8; 32],
    pub pk_s: [u8; 32],
    pub sig: [u8; 64],
    pub cert: [u8; 96],
    pub mac: [u8; 32],
    pub k1c: [u8; 32],
    pub k1s: [u8; 32],
    pub k2c: [u8; 32],
    pub k2s: [u8; 32],
    pub k3c: [u8; 32],
    pub k3s: [u8; 32],
}

/// The first 12 bytes of a freshness nonce, the AEAD nonce of its party.
pub open spec fn nonce_prefix(n: Seq<u8>) -> Seq<u8> {
    n.subrange(0, 12)
}

/// A certificate: the subject's verifying key and the authority's signature over it.
pub open spec fn certificate_of(ca_sk: Seq<u8>, subject_pk: Seq<u8>) -> Seq<u8> {
    subject_pk + ed25519_sign_of(ca_sk, subject_pk)
}

/// What the server signs.
pub open spec fn server_sig_input(fields: Seq<u8>) -> Seq<u8> {
    transcript_hash_of(fields, Label::ServerSig)
}

/// What the server MACs.
pub open spec fn server_mac_input(fields: Seq<u8>, sig: Seq<u8>, cert: Seq<u8>) -> Seq<u8> {
    transcript_hash_of(fields + sig + cert, Label::ServerMAC)
}

/// What the client MACs in its Finished flight.
pub open spec fn client_mac_input(fields: Seq<u8>, sig: Seq<u8>, cert: Seq<u8>) -> Seq<u8> {
    transcript_hash_of(fields + sig + cert, Label::ClientMAC)
}

/// Whether `neg` holds these exchanged values and the keys derived from them.
pub open spec fn negotiated_matches(
    neg: Negotiated,
    nc: Seq<u8>,
    pkc: Seq<u8>,
    ns: Seq<u8>,
    pks: Seq<u8>,
    ss: Seq<u8>,
    sig: Seq<u8>,
    cert: Seq<u8>,
    mac: Seq<u8>,
) -> bool {
    &&& neg.nonce_c@ == nc
    &&& neg.pk_c@ == pkc
    &&& neg.nonce_s@ == ns
    &&& neg.pk_s@ == pks
    &&& neg.sig@ == sig
    &&& neg.cert@ == cert
    &&& neg.mac@ == mac
    &&& (neg.k1c@, neg.k1s@) == tier1(ss)
    &&& (neg.k2c@, neg.k2s@) == tier2(nc, pkc, ns, pks, ss)
    &&& (neg.k3c@, neg.k3s@) == tier3(nc, pkc, ns, pks, ss, sig, cert, mac)
}

/// The client's verdict on a server flight (nonce `ns`, DH key `pks`,
/// ciphertext `ct`): the certificate, signature and MAC it carried, or why
/// it is refused.
pub open spec fn client_check(
    nc: Seq<u8>,
    skc: Seq<u8>,
    ca_pk: Seq<u8>,
    ns: Seq<u8>,
    pks: Seq<u8>,
    ct: Seq<u8>,
) -> Result<(Seq<u8>, Seq<u8>, Seq<u8>), HandshakeError> {
    let pkc = dh_public_of(skc);
    let ss = x25519_of(skc, pks);
    let k1s = tier1(ss).1;
    if ct.len() > AEAD_MAX_LEN || !opens(k1s, nonce_prefix(ns), ct, Seq::empty()) {
        Err(HandshakeError::CryptoFailure)
    } else {
        let pt = opened(k1s, nonce_prefix(ns), ct, Seq::empty());
        if pt.len() != MSG_LEN {
            Err(HandshakeError::MalformedMessage)
        } else {
            let cert = pt.subrange(0, 96);
            let sig = pt.subrange(96, 160);
            let mac = pt.subrange(160, 192);
            let fields = exchange_fields(nc, pkc, ns, pks);
            let k2s = tier2(nc, pkc, ns, pks, ss).1;
            if ed25519_verify_of(ca_pk, cert.subrange(0, 32), cert.subrange(32, 96))
                && ed25519_verify_of(cert.subrange(0, 32), server_sig_input(fields), sig)
                && mac == hmac_sha256_of(k2s, server_mac_input(fields, sig, cert)) {
                Ok((cert, sig, mac))
            } else {
                Err(HandshakeError::AuthenticationFailure)
            }
        }
    }
}

/// A client and a server whose shared secrets are equal and who hold the
/// same exchanged values derive the same keys in every tier and direction.
pub proof fn lemma_sessions_agree(
    client: Negotiated,
    server: Negotiated,
    nc: Seq<u8>,
    pkc: Seq<u8>,
    ns: Seq<u8>,
    pks: Seq<u8>,
    ss_client: Seq<u8>,
    ss_server: Seq<u8>,
    sig: Seq<u8>,
    cert: Seq<u8>,
    mac: Seq<u8>,
)
    requires
        negotiated_matches(client, nc, pkc, ns, pks, ss_client, sig, cert, mac),
        negotiated_matches(server, nc, pkc, ns, pks, ss_server, sig, cert, mac),
        ss_client == ss_server,
    ensures
        client.k1c@ == server.k1c@,
        client.k1s@ == server.k1s@,
        client.k2c@ == server.k2c@,
        client.k2s@ == server.k2s@,
        client.k3c@ == server.k3c@,
        client.k3s@ == server.k3s@,
{
}

fn zero_negotiated() -> (r: Negotiated) {
    Negotiated {
        nonce_c: [0u8; 32],
        pk_c: [0u8; 32],
        nonce_s: [0u8; 32],
        pk_s: [0u8; 32],
        sig: [0u8; 64],
        cert: [0u8; 96],
        mac: [0u8; 32],
        k1c: [0u8; 32],
        k1s: [0u8; 32],
        k2c: [0u8; 32],
        k2s: [0u8; 32],
        k3c: [0u8; 32],
        k3s: [0u8; 32],
    }
}

/// Issues a certificate for `subject_pk` under the authority's secret key.
pub fn issue_certificate(ca_sk: &[u8; 32], subject_pk: &[u8; 32]) -> (r: [u8; 96])
    ensures
        r@ == certificate_of(ca_sk@, subject_pk@),
{
    let ca_sig = sign(ca_sk, subject_pk);
    let mut buf: Vec<u8> = Vec::new();
    append_bytes(&mut buf, subject_pk);
    append_bytes(&mut buf, &ca_sig);
    take_array(buf.as_slice(), 0)
}

/// The client side of one handshake attempt.
pub struct ClientSession {
    state: HandshakeState,
    secret: Option<DhSecret>,
    ca_pk: [u8; 32],
    neg: Negotiated,
}

impl ClientSession {
    pub closed spec fn spec_state(&self) -> HandshakeState {
        self.state
    }

    pub closed spec fn negotiated(&self) -> Negotiated {
        self.neg
    }

    pub closed spec fn ca_key(&self) -> Seq<u8> {
        self.ca_pk@
    }

    /// The DH secret, while it has not been consumed.
    pub closed spec fn secret_value(&self) -> Option<Seq<u8>> {
        match self.secret {
            Some(s) => Some(s.value()),
            None => None,
        }
    }

    /// The secret is present exactly until the flight that consumes it,
    /// and the session's own public key is that of its secret.
    pub closed spec fn wf(&self) -> bool {
        &&& (self.state == HandshakeState::Init) == (self.secret is Some)
        &&& self.secret is Some ==> self.neg.pk_c@ == dh_public_of(self.secret->Some_0.value())
    }

    /// A session for the client nonce `nonce` and DH key pair `dh`, which
    /// accepts servers certified by `ca_pk`.
    pub fn new(nonce: [u8; 32], dh: DHkeypair, ca_pk: [u8; 32]) -> (r: Self)
        requires
            dh.pk@ == dh_public_of(dh.sk.value()),
        ensures
            r.wf(),
            r.spec_state() == HandshakeState::Init,
            r.secret_value() == Some(dh.sk.value()),
            r.negotiated().nonce_c == nonce,
            r.negotiated().pk_c == dh.pk,
            r.ca_key() == ca_pk@,
    {
        let mut neg = zero_negotiated();
        neg.nonce_c = nonce;
        neg.pk_c = dh.pk;
        ClientSession { state: HandshakeState::Init, secret: Some(dh.sk), ca_pk, neg }
    }

    pub fn state(&self) -> (r: HandshakeState)
        ensures
            r == self.spec_state(),
    {
        self.state
    }

    /// The client's first flight.
    pub fn hello(&self) -> (r: ClientHello)
        ensures
            r.nonce == self.negotiated().nonce_c,
            r.pk == self.negotiated().pk_c,
    {
        ClientHello { nonce: self.neg.nonce_c, pk: self.neg.pk_c }
    }

    /// Consumes the server's flight: agrees on the shared secret, opens the
    /// flight, decodes it, checks the certificate against the authority,
    /// the signature against the certified key and the MAC against the
    /// client's own recomputation.
    pub fn receive_server_flight(&mut self, flight: &ServerFlight) -> (r: Result<(), HandshakeError>)
        requires
            old(self).wf(),
        ensures
            final(self).wf(),
            final(self).ca_key() == old(self).ca_key(),
            old(self).spec_state() != HandshakeState::Init ==> r == Err::<(), HandshakeError>(
                HandshakeError::ProtocolViolation,
            ),
            old(self).spec_state() == HandshakeState::Init ==> ({
                let skc = old(self).secret_value()->Some_0;
                let nc = old(self).negotiated().nonce_c@;
                let check = client_check(nc, skc, old(self).ca_key(), flight.nonce@, flight.pk@, flight.ciphertext@);
                &&& (r is Ok <==> check is Ok)
                &&& r is Err ==> r->Err_0 == check->Err_0
                &&& r is Ok ==> negotiated_matches(
                    final(self).negotiated(),
                    nc,
                    dh_public_of(skc),
                    flight.nonce@,
                    flight.pk@,
                    x25519_of(skc, flight.pk@),
                    check->Ok_0.1,
                    check->Ok_0.0,
                    check->Ok_0.2,
                )
            }),
            r is Ok ==> final(self).spec_state() == HandshakeState::ServerAuthenticated,
            r is Err ==> final(self).spec_state() == HandshakeState::Failed(r->Err_0),
    {
        if self.state != HandshakeState::Init {
            self.secret = None;
            self.state = HandshakeState::Failed(HandshakeError::ProtocolViolation);
            return Err(HandshakeError::ProtocolViolation);
        }
        let secret = match self.secret.take() {
            Some(s) => s,
            None => {
                self.state = HandshakeState::Failed(HandshakeError::ProtocolViolation);
                return Err(HandshakeError::ProtocolViolation);
            },
        };
        let ss = shared_secret(secret, &flight.pk);
        let (k1c, k1s) = KeySchedule_1(&ss);
        let n12: [u8; 12] = take_array(&flight.nonce, 0);
        let empty: Vec<u8> = Vec::new();
        assert(empty@ =~= Seq::<u8>::empty());
        if flight.ciphertext.len() as u64 > AEAD_MAX_LEN {
            self.state = HandshakeState::Failed(HandshakeError::CryptoFailure);
            return Err(HandshakeError::CryptoFailure);
        }
        let pt = match decrypt(&k1s, &n12, flight.ciphertext.as_slice(), empty.as_slice()) {
            Ok(p) => p,
            Err(_) => {
                self.state = HandshakeState::Failed(HandshakeError::CryptoFailure);
                return Err(HandshakeError::CryptoFailure);
            },
        };
        let (cert, sig, mac) = match split_decrypted(pt) {
            Ok(t) => t,
            Err(e) => {
                self.state = HandshakeState::Failed(e);
                return Err(e);
            },
        };
        let subject: [u8; 32] = take_array(&cert, 0);
        let ca_sig: [u8; 64] = take_array(&cert, 32);
        let nc = self.neg.nonce_c;
        let pkc = self.neg.pk_c;
        let fields = exchange_transcript(&nc, &pkc, &flight.nonce, &flight.pk);
        let (k2c, k2s) = KeySchedule_2(&nc, &pkc, &flight.nonce, &flight.pk, &ss);
        let sig_input = transcript_hash(fields.as_slice(), Label::ServerSig);
        let mut bound = exchange_transcript(&nc, &pkc, &flight.nonce, &flight.pk);
        append_bytes(&mut bound, &sig);
        append_bytes(&mut bound, &cert);
        let mac_input = transcript_hash(bound.as_slice(), Label::ServerMAC);
        proof {
            assert(cert@.subrange(0, 32) == subject@);
            assert(cert@.subrange(32, 96) == ca_sig@);
        }
        let authentic = verify(&self.ca_pk, &subject, &ca_sig) && verify(&subject, &sig_input, &sig)
            && verify_hmac_sha256(&k2s, &mac_input, &mac);
        if !authentic {
            self.state = HandshakeState::Failed(HandshakeError::AuthenticationFailure);
            return Err(HandshakeError::AuthenticationFailure);
        }
        let (k3c, k3s) = KeySchedule_3(&nc, &pkc, &flight.nonce, &flight.pk, &ss, &sig, &cert, &mac);
        self.neg = Negotiated {
            nonce_c: nc,
            pk_c: pkc,
            nonce_s: flight.nonce,
            pk_s: flight.pk,
            sig,
            cert,
            mac,
            k1c,
            k1s,
            k2c,
            k2s,
            k3c,
            k3s,
        };
        self.state = HandshakeState::ServerAuthenticated;
        Ok(())
    }
    /// Seals the client's Finished MAC under its tier-1 key and nonce prefix;
    /// the session is then established on the client's side.
    pub fn client_finished(&mut self) -> (r: Result<Vec<u8>, HandshakeError>)
        requires
            old(self).wf(),
        ensures
            final(self).wf(),
            final(self).negotiated() == old(self).negotiated(),
            final(self).ca_key() == old(self).ca_key(),
            old(self).spec_state() != HandshakeState::ServerAuthenticated ==> r == Err::<Vec<u8>, HandshakeError>(
                HandshakeError::ProtocolViolation,
            ),
            old(self).spec_state() == HandshakeState::ServerAuthenticated ==> ({
                let neg = old(self).negotiated();
                let fields = exchange_fields(neg.nonce_c@, neg.pk_c@, neg.nonce_s@, neg.pk_s@);
                let tag = hmac_sha256_of(neg.k2c@, client_mac_input(fields, neg.sig@, neg.cert@));
                &&& r is Ok
                &&& r->Ok_0@ == aes_gcm_seal_of(neg.k1c@, nonce_prefix(neg.nonce_c@), tag, Seq::empty())
            }),
            r is Ok ==> final(self).spec_state() == HandshakeState::Established,
            r is Err ==> final(self).spec_state() == HandshakeState::Failed(r->Err_0),
    {
        if self.state != HandshakeState::ServerAuthenticated {
            self.secret = None;
            self.state = HandshakeState::Failed(HandshakeError::ProtocolViolation);
            return Err(HandshakeError::ProtocolViolation);
        }
        let neg = self.neg;
        let mut bound = exchange_transcript(&neg.nonce_c, &neg.pk_c, &neg.nonce_s, &neg.pk_s);
        append_bytes(&mut bound, &neg.sig);
        append_bytes(&mut bound, &neg.cert);
        let mac_input = transcript_hash(bound.as_slice(), Label::ClientMAC);
        let tag = compute_hmac_sha256(&neg.k2c, &mac_input);
        let n12: [u8; 12] = take_array(&neg.nonce_c, 0);
        let empty: Vec<u8> = Vec::new();
        assert(empty@ =~= Seq::<u8>::empty());
        match encrypt(&neg.k1c, &n12, &tag, empty.as_slice()) {
            Ok(ct) => {
                self.state = HandshakeState::Established;
                Ok(ct)
            },
            Err(_) => {
                self.state = HandshakeState::Failed(HandshakeError::CryptoFailure);
                Err(HandshakeError::CryptoFailure)
            },
        }
    }

    /// The confirmed tier-3 keys (client, server), once established.
    pub fn session_keys(&self) -> (r: Option<([u8; 32], [u8; 32])>)
        ensures
            r is Some <==> self.spec_state() == HandshakeState::Established,
            r is Some ==> r->Some_0 == (self.negotiated().k3c, self.negotiated().k3s),
    {
        if self.state == HandshakeState::Established {
            Some((self.neg.k3c, self.neg.k3s))
        } else {
            None
        }
    }
}

/// The server side of one handshake attempt.
pub struct ServerSession {
    state: HandshakeState,
    secret: Option<DhSecret>,
    signing_sk: [u8; 32],
    cert: [u8; 96],
    neg: Negotiated,
}

impl ServerSession {
    pub closed spec fn spec_state(&self) -> HandshakeState {
        self.state
    }

    pub closed spec fn negotiated(&self) -> Negotiated {
        self.neg
    }

    pub closed spec fn signing_key(&self) -> Seq<u8> {
        self.signing_sk@
    }

    pub closed spec fn certificate(&self) -> Seq<u8> {
        self.cert@
    }

    /// The DH secret, while it has not been consumed.
    pub closed spec fn secret_value(&self) -> Option<Seq<u8>> {
        match self.secret {
            Some(s) => Some(s.value()),
            None => None,
        }
    }

    /// The secret is present exactly until the flight that consumes it,
    /// and the session's own public key is that of its secret.
    pub closed spec fn wf(&self) -> bool {
        &&& (self.state == HandshakeState::Init) == (self.secret is Some)
        &&& self.secret is Some ==> self.neg.pk_s@ == dh_public_of(self.secret->Some_0.value())
    }

    /// A session for the server nonce `nonce`, DH key pair `dh`, Ed25519
    /// signing key `signing_sk` and certificate `cert` for its verifying key.
    pub fn new(nonce: [u8; 32], dh: DHkeypair, signing_sk: [u8; 32], cert: [u8; 96]) -> (r: Self)
        requires
            dh.pk@ == dh_public_of(dh.sk.value()),
        ensures
            r.wf(),
            r.spec_state() == HandshakeState::Init,
            r.secret_value() == Some(dh.sk.value()),
            r.negotiated().nonce_s == nonce,
            r.negotiated().pk_s == dh.pk,
            r.signing_key() == signing_sk@,
            r.certificate() == cert@,
    {
        let mut neg = zero_negotiated();
        neg.nonce_s = nonce;
        neg.pk_s = dh.pk;
        ServerSession { state: HandshakeState::Init, secret: Some(dh.sk), signing_sk, cert, neg }
    }

    pub fn state(&self) -> (r: HandshakeState)
        ensures
            r == self.spec_state(),
    {
        self.state
    }

    /// Answers a client hello: agrees on the shared secret, signs the
    /// exchange, MACs the transcript with the certificate, derives all three
    /// tiers and seals certificate || signature || MAC under the server's
    /// tier-1 key and nonce prefix.
    pub fn respond(&mut self, hello: &ClientHello) -> (r: Result<ServerFlight, HandshakeError>)
        requires
            old(self).wf(),
        ensures
            final(self).wf(),
            final(self).signing_key() == old(self).signing_key(),
            final(self).certificate() == old(self).certificate(),
            old(self).spec_state() != HandshakeState::Init ==> r is Err && r->Err_0 == HandshakeError::ProtocolViolation,
            old(self).spec_state() == HandshakeState::Init ==> ({
                let sks = old(self).secret_value()->Some_0;
                let ns = old(self).negotiated().nonce_s@;
                let pks = dh_public_of(sks);
                let ss = x25519_of(sks, hello.pk@);
                let fields = exchange_fields(hello.nonce@, hello.pk@, ns, pks);
                let sig = ed25519_sign_of(old(self).signing_key(), server_sig_input(fields));
                let cert = old(self).certificate();
                let mac = hmac_sha256_of(tier2(hello.nonce@, hello.pk@, ns, pks, ss).1, server_mac_input(fields, sig, cert));
                &&& r is Ok
                &&& r->Ok_0.nonce@ == ns
                &&& r->Ok_0.pk@ == pks
                &&& r->Ok_0.ciphertext@ == aes_gcm_seal_of(
                    tier1(ss).1,
                    nonce_prefix(ns),
                    encoded(cert, sig, mac),
                    Seq::empty(),
                )
                &&& negotiated_matches(final(self).negotiated(), hello.nonce@, hello.pk@, ns, pks, ss, sig, cert, mac)
            }),
            r is Ok ==> final(self).spec_state() == HandshakeState::KeyExchanged,
            r is Err ==> final(self).spec_state() == HandshakeState::Failed(r->Err_0),
    {
        if self.state != HandshakeState::Init {
            self.secret = None;
            self.state = HandshakeState::Failed(HandshakeError::ProtocolViolation);
            return Err(HandshakeError::ProtocolViolation);
        }
        let secret = match self.secret.take() {
            Some(s) => s,
            None => {
                self.state = HandshakeState::Failed(HandshakeError::ProtocolViolation);
                return Err(HandshakeError::ProtocolViolation);
            },
        };
        let ss = shared_secret(secret, &hello.pk);
        let ns = self.neg.nonce_s;
        let pks = self.neg.pk_s;
        let (k1c, k1s) = KeySchedule_1(&ss);
        let fields = exchange_transcript(&hello.nonce, &hello.pk, &ns, &pks);
        let sig_input = transcript_hash(fields.as_slice(), Label::ServerSig);
        let sig = sign(&self.signing_sk, &sig_input);
        let (k2c, k2s) = KeySchedule_2(&hello.nonce, &hello.pk, &ns, &pks, &ss);
        let cert = self.cert;
        let mut bound = exchange_transcript(&hello.nonce, &hello.pk, &ns, &pks);
        append_bytes(&mut bound, &sig);
        append_bytes(&mut bound, &cert);
        let mac_input = transcript_hash(bound.as_slice(), Label::ServerMAC);
        let mac = compute_hmac_sha256(&k2s, &mac_input);
        let (k3c, k3s) = KeySchedule_3(&hello.nonce, &hello.pk, &ns, &pks, &ss, &sig, &cert, &mac);
        let pt = encode(&cert, &sig, &mac);
        let n12: [u8; 12] = take_array(&ns, 0);
        let empty: Vec<u8> = Vec::new();
        assert(empty@ =~= Seq::<u8>::empty());
        let ciphertext = match encrypt(&k1s, &n12, pt.as_slice(), empty.as_slice()) {
            Ok(ct) => ct,
            Err(_) => {
                self.state = HandshakeState::Failed(HandshakeError::CryptoFailure);
                return Err(HandshakeError::CryptoFailure);
            },
        };
        self.neg = Negotiated {
            nonce_c: hello.nonce,
            pk_c: hello.pk,
            nonce_s: ns,
            pk_s: pks,
            sig,
            cert,
            mac,
            k1c,
            k1s,
            k2c,
            k2s,
            k3c,
            k3s,
        };
        self.state = HandshakeState::KeyExchanged;
        Ok(ServerFlight { nonce: ns, pk: pks, ciphertext })
    }

    /// Opens the client's Finished flight and compares its MAC with the
    /// server's own recomputation; the session is then established.
    pub fn receive_client_finished(&mut self, ciphertext: &[u8]) -> (r: Result<(), HandshakeError>)
        requires
            old(self).wf(),
        ensures
            final(self).wf(),
            final(self).negotiated() == old(self).negotiated(),
            old(self).spec_state() != HandshakeState::KeyExchanged ==> r == Err::<(), HandshakeError>(
                HandshakeError::ProtocolViolation,
            ),
            old(self).spec_state() == HandshakeState::KeyExchanged ==> ({
                let neg = old(self).negotiated();
                let n12 = nonce_prefix(neg.nonce_c@);
                let fields = exchange_fields(neg.nonce_c@, neg.pk_c@, neg.nonce_s@, neg.pk_s@);
                let tag = hmac_sha256_of(neg.k2c@, client_mac_input(fields, neg.sig@, neg.cert@));
                &&& (ciphertext@.len() > AEAD_MAX_LEN || !opens(neg.k1c@, n12, ciphertext@, Seq::empty())) ==> r == Err::<(), HandshakeError>(
                    HandshakeError::CryptoFailure,
                )
                &&& ciphertext@.len() <= AEAD_MAX_LEN && opens(neg.k1c@, n12, ciphertext@, Seq::empty()) && opened(neg.k1c@, n12, ciphertext@, Seq::empty()) != tag
                    ==> r == Err::<(), HandshakeError>(HandshakeError::AuthenticationFailure)
                &&& ciphertext@.len() <= AEAD_MAX_LEN && opens(neg.k1c@, n12, ciphertext@, Seq::empty()) && opened(neg.k1c@, n12, ciphertext@, Seq::empty()) == tag
                    ==> r is Ok
            }),
            r is Ok ==> final(self).spec_state() == HandshakeState::Established,
            r is Err ==> final(self).spec_state() == HandshakeState::Failed(r->Err_0),
    {
        if self.state != HandshakeState::KeyExchanged {
            self.secret = None;
            self.state = HandshakeState::Failed(HandshakeError::ProtocolViolation);
            return Err(HandshakeError::ProtocolViolation);
        }
        let neg = self.neg;
        let n12: [u8; 12] = take_array(&neg.nonce_c, 0);
        let empty: Vec<u8> = Vec::new();
        assert(empty@ =~= Seq::<u8>::empty());
        if ciphertext.len() as u64 > AEAD_MAX_LEN {
            self.state = HandshakeState::Failed(HandshakeError::CryptoFailure);
            return Err(HandshakeError::CryptoFailure);
        }
        let pt = match decrypt(&neg.k1c, &n12, ciphertext, empty.as_slice()) {
            Ok(p) => p,
            Err(_) => {
                self.state = HandshakeState::Failed(HandshakeError::CryptoFailure);
                return Err(HandshakeError::CryptoFailure);
            },
        };
        let mut bound = exchange_transcript(&neg.nonce_c, &neg.pk_c, &neg.nonce_s, &neg.pk_s);
        append_bytes(&mut bound, &neg.sig);
        append_bytes(&mut bound, &neg.cert);
        let mac_input = transcript_hash(bound.as_slice(), Label::ClientMAC);
        if !verify_hmac_sha256(&neg.k2c, &mac_input, pt.as_slice()) {
            self.state = HandshakeState::Failed(HandshakeError::AuthenticationFailure);
            return Err(HandshakeError::AuthenticationFailure);
        }
        self.state = HandshakeState::Established;
        Ok(())
    }

    /// The confirmed tier-3 keys (client, server), once established.
    pub fn session_keys(&self) -> (r: Option<([u8; 32], [u8; 32])>)
        ensures
            r is Some <==> self.spec_state() == HandshakeState::Established,
            r is Some ==> r->Some_0 == (self.negotiated().k3c, self.negotiated().k3s),
    {
        if self.state == HandshakeState::Established {
            Some((self.neg.k3c, self.neg.k3s))
        } else {
            None
        }
    }
}

} // verus!
