use cmsutil::cert::Certificate;
use cmsutil::cert::KeyProtection;
use cmsutil::cert::PinSupport;
use cmsutil::cert::PrivateKeyHandle;
use cmsutil::content::CmsContentContext;
use cmsutil::ops::OperationError;
use cmsutil::ops::collect_recipients;
use cmsutil::ops::decode;
use cmsutil::ops::encode;
use cmsutil::pipeline::CmsError;
use cmsutil::pipeline::EnvelopedData;
use cmsutil::pipeline::decrypt_and_verify;
use cmsutil::store::CertStore;

fn key(key_id: u64) -> PrivateKeyHandle {
    PrivateKeyHandle {
        provider: b"Software Key Storage Provider".to_vec(),
        key_name: b"test-key".to_vec(),
        key_id,
        can_sign: true,
        protection: KeyProtection::Unprotected,
        pin_support: PinSupport::Accepts,
        pin: None,
    }
}

fn cert(subject: &[u8], key_id: u64, with_key: bool) -> Certificate {
    Certificate {
        subject: subject.to_vec(),
        key_id,
        can_encrypt: true,
        key: if with_key { Some(key(key_id)) } else { None },
    }
}

/// A store for the sending side: the signer's key, plus recipient
/// certificates without private keys.
fn sender_store() -> CertStore {
    CertStore {
        certs: vec![
            cert(b"Alice", 1, true),
            cert(b"Bob", 2, false),
            cert(b"Bob-Work", 3, false),
            cert(b"Carol", 4, false),
        ],
        pfx_backed: false,
    }
}

/// A store for the receiving side: it holds Bob's private key.
fn receiver_store() -> CertStore {
    CertStore { certs: vec![cert(b"Bob", 2, true)], pfx_backed: false }
}

fn sealed_envelope(message: &[u8]) -> EnvelopedData {
    let store = sender_store();
    encode(
        &store,
        &b"Alice".to_vec(),
        &vec![b"Bob".to_vec(), b"Carol".to_vec()],
        &None,
        false,
        &message.to_vec(),
    )
    .expect("encode succeeds")
}

#[test]
fn sign_and_encrypt_embeds_message_signer_and_recipients() {
    let env = sealed_envelope(b"attack at dawn");
    assert_eq!(env.inner.content, b"attack at dawn".to_vec());
    assert_eq!(env.inner.signer_cert.subject, b"Alice".to_vec());
    assert_eq!(env.inner.signature.key_id, 1);
    assert_eq!(env.inner.signature.signed_bytes, b"attack at dawn".to_vec());
    // "Bob" matches two certificates, "Carol" one: three RecipientInfo
    // entries, never deduplicated.
    let ids: Vec<u64> = env.recipient_infos.iter().map(|ri| ri.key_id).collect();
    assert_eq!(ids, vec![2, 3, 4]);
}

#[test]
fn recipient_gathering_keeps_every_match_of_every_query() {
    let store = sender_store();
    let gathered = collect_recipients(&store, &vec![b"Bob".to_vec(), b"Carol".to_vec()]);
    let subjects: Vec<&[u8]> = gathered.iter().map(|c| c.subject.as_slice()).collect();
    assert_eq!(subjects, vec![b"Bob".as_slice(), b"Bob-Work".as_slice(), b"Carol".as_slice()]);
}

#[test]
fn round_trip_recovers_the_exact_plaintext() {
    let env = sealed_envelope(b"attack at dawn");
    let plain = decrypt_and_verify(&receiver_store(), env).expect("decrypts and verifies");
    assert_eq!(plain, b"attack at dawn".to_vec());
}

#[test]
fn round_trip_through_decode_recovers_the_exact_plaintext() {
    let env = sealed_envelope(b"meet me at noon");
    let plain = decode(&receiver_store(), &b"Bob".to_vec(), &None, false, env)
        .expect("decode succeeds");
    assert_eq!(plain, b"meet me at noon".to_vec());
}

#[test]
fn tampered_content_fails_verification_not_silently() {
    let mut env = sealed_envelope(b"attack at dawn");
    env.inner.content[0] ^= 0x01;
    let r = decrypt_and_verify(&receiver_store(), env);
    assert_eq!(r.err(), Some(CmsError::Verification));
}

#[test]
fn every_single_byte_flip_is_detected() {
    let msg = b"short msg";
    for i in 0..msg.len() {
        let mut env = sealed_envelope(msg);
        env.inner.content[i] = !env.inner.content[i];
        let r = decrypt_and_verify(&receiver_store(), env);
        assert_eq!(r.err(), Some(CmsError::Verification));
    }
}

#[test]
fn store_without_any_recipient_key_cannot_decrypt() {
    let env = sealed_envelope(b"attack at dawn");
    // The sender's own store has no recipient private key.
    let r = decrypt_and_verify(&sender_store(), env);
    assert_eq!(r.err(), Some(CmsError::Decryption));
}

#[test]
fn signature_from_a_foreign_key_fails_verification() {
    let mut env = sealed_envelope(b"attack at dawn");
    env.inner.signature.key_id = 99;
    let r = decrypt_and_verify(&receiver_store(), env);
    assert_eq!(r.err(), Some(CmsError::Verification));
}

#[test]
fn signing_is_refused_for_a_revoked_key() {
    let mut signer = cert(b"Alice", 1, true);
    if let Some(k) = signer.key.as_mut() {
        k.can_sign = false;
    }
    let ctx = CmsContentContext::builder()
        .signer(signer)
        .recipients(vec![cert(b"Bob", 2, false)])
        .build()
        .expect("buildable");
    let r = ctx.sign_and_encrypt(&b"m".to_vec());
    assert_eq!(r.err(), Some(CmsError::Signing));
}

#[test]
fn unusable_recipient_key_is_an_encryption_error() {
    let mut bob = cert(b"Bob", 2, false);
    bob.can_encrypt = false;
    let ctx = CmsContentContext::builder()
        .signer(cert(b"Alice", 1, true))
        .recipients(vec![cert(b"Carol", 4, false), bob])
        .build()
        .expect("buildable");
    let r = ctx.sign_and_encrypt(&b"m".to_vec());
    assert_eq!(r.err(), Some(CmsError::Encryption));
}

#[test]
fn encode_names_the_query_when_no_signer_is_found() {
    let store = sender_store();
    let r = encode(
        &store,
        &b"Mallory".to_vec(),
        &vec![b"Bob".to_vec()],
        &None,
        false,
        &b"m".to_vec(),
    );
    assert!(matches!(
        r,
        Err(OperationError::IdentityNotFound(q)) if q == b"Mallory".to_vec()
    ));
}

#[test]
fn encode_reports_a_match_without_usable_key_as_identity_not_found() {
    // "Bob" matches certificates, but none carries a private key.
    let store = sender_store();
    let r = encode(
        &store,
        &b"Bob".to_vec(),
        &vec![b"Carol".to_vec()],
        &None,
        false,
        &b"m".to_vec(),
    );
    assert!(matches!(
        r,
        Err(OperationError::IdentityNotFound(q)) if q == b"Bob".to_vec()
    ));
}

#[test]
fn encode_with_no_recipient_match_cannot_build() {
    let store = sender_store();
    let r = encode(
        &store,
        &b"Alice".to_vec(),
        &vec![b"Mallory".to_vec()],
        &None,
        false,
        &b"m".to_vec(),
    );
    assert!(matches!(
        r,
        Err(OperationError::Build(cmsutil::content::BuildError::NoRecipients))
    ));
}

#[test]
fn encode_surfaces_pin_rejection() {
    let mut store = sender_store();
    if let Some(k) = store.certs[0].key.as_mut() {
        k.pin_support = PinSupport::Rejects;
    }
    let r = encode(
        &store,
        &b"Alice".to_vec(),
        &vec![b"Bob".to_vec()],
        &Some(b"1234".to_vec()),
        false,
        &b"m".to_vec(),
    );
    assert!(matches!(
        r,
        Err(OperationError::Pin(cmsutil::cert::PinError::Rejected))
    ));
}

#[test]
fn decode_names_the_query_when_no_recipient_identity_is_usable() {
    let env = sealed_envelope(b"m");
    let r = decode(&receiver_store(), &b"Mallory".to_vec(), &None, false, env);
    assert!(matches!(
        r,
        Err(OperationError::IdentityNotFound(q)) if q == b"Mallory".to_vec()
    ));
}

#[test]
fn empty_message_round_trips() {
    let env = sealed_envelope(b"");
    let plain = decrypt_and_verify(&receiver_store(), env).expect("decrypts and verifies");
    assert_eq!(plain, Vec::<u8>::new());
}
