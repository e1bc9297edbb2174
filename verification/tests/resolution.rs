use cmsutil::cert::Certificate;
use cmsutil::cert::KeyProtection;
use cmsutil::cert::PinError;
use cmsutil::cert::PinSupport;
use cmsutil::cert::PrivateKeyHandle;
use cmsutil::content::BuildError;
use cmsutil::content::CmsContentContext;
use cmsutil::resolver::acquire_first_usable_key;
use cmsutil::resolver::apply_pin;
use cmsutil::store::CertStore;
use cmsutil::store::PfxArchive;
use cmsutil::store::StoreError;

fn key(key_id: u64, protection: KeyProtection) -> PrivateKeyHandle {
    PrivateKeyHandle {
        provider: b"Software Key Storage Provider".to_vec(),
        key_name: b"test-key".to_vec(),
        key_id,
        can_sign: true,
        protection,
        pin_support: PinSupport::Accepts,
        pin: None,
    }
}

fn cert(subject: &[u8], key_id: u64, key: Option<PrivateKeyHandle>) -> Certificate {
    Certificate { subject: subject.to_vec(), key_id, can_encrypt: true, key }
}

fn sample_store() -> CertStore {
    CertStore {
        certs: vec![
            cert(b"Alice-2019", 1, None),
            cert(b"Alice-2023", 2, Some(key(2, KeyProtection::Unprotected))),
            cert(b"Bob", 3, Some(key(3, KeyProtection::Unprotected))),
        ],
        pfx_backed: false,
    }
}

#[test]
fn find_is_substring_match_in_store_order() {
    let store = sample_store();
    let found = store.find_by_subject_substring(&b"Alice".to_vec());
    assert_eq!(found.len(), 2);
    assert_eq!(found[0].subject, b"Alice-2019".to_vec());
    assert_eq!(found[1].subject, b"Alice-2023".to_vec());

    let partial = store.find_by_subject_substring(&b"lice-2023".to_vec());
    assert_eq!(partial.len(), 1);
    assert_eq!(partial[0].subject, b"Alice-2023".to_vec());
}

#[test]
fn find_is_case_sensitive() {
    let store = sample_store();
    let found = store.find_by_subject_substring(&b"alice".to_vec());
    assert_eq!(found.len(), 0);
}

#[test]
fn find_with_empty_query_matches_everything() {
    let store = sample_store();
    let found = store.find_by_subject_substring(&Vec::new());
    assert_eq!(found.len(), 3);
}

#[test]
fn find_with_no_match_is_empty_not_an_error() {
    let store = sample_store();
    let found = store.find_by_subject_substring(&b"Mallory".to_vec());
    assert_eq!(found.len(), 0);
}

#[test]
fn expired_key_is_skipped_for_the_next_usable_candidate() {
    // Subject query "Alice" matches Alice-2019 (no usable key) before
    // Alice-2023 (valid key): first-usable-key semantics pick Alice-2023.
    let store = sample_store();
    let candidates = store.find_by_subject_substring(&b"Alice".to_vec());
    let signer = acquire_first_usable_key(&candidates, false).expect("a usable key exists");
    assert_eq!(signer.subject, b"Alice-2023".to_vec());
    assert_eq!(signer.key.as_ref().map(|k| k.key_id), Some(2));
}

#[test]
fn sole_usable_candidate_wins_regardless_of_position() {
    let candidates = vec![
        cert(b"X-1", 1, None),
        cert(b"X-2", 2, Some(key(2, KeyProtection::Interactive { granted: false }))),
        cert(b"X-3", 3, Some(key(3, KeyProtection::Unprotected))),
    ];
    let picked = acquire_first_usable_key(&candidates, false).expect("one candidate is usable");
    assert_eq!(picked.subject, b"X-3".to_vec());
}

#[test]
fn no_usable_candidate_yields_none() {
    let candidates = vec![
        cert(b"X-1", 1, None),
        cert(b"X-2", 2, Some(key(2, KeyProtection::Interactive { granted: false }))),
    ];
    assert!(acquire_first_usable_key(&candidates, false).is_none());
}

#[test]
fn silent_mode_never_reaches_a_prompt() {
    // The second candidate's prompt would be granted, but silent mode
    // fails fast instead of prompting, so nothing is acquired.
    let candidates = vec![
        cert(b"X-1", 1, None),
        cert(b"X-2", 2, Some(key(2, KeyProtection::Interactive { granted: true }))),
    ];
    assert!(acquire_first_usable_key(&candidates, true).is_none());
    assert!(acquire_first_usable_key(&candidates, false).is_some());
}

#[test]
fn key_handle_reports_provider_and_name() {
    let k = key(7, KeyProtection::Unprotected);
    assert_eq!(k.get_provider_name(), b"Software Key Storage Provider".to_vec());
    assert_eq!(k.get_name(), b"test-key".to_vec());
}

#[test]
fn set_pin_is_a_noop_success_when_the_backend_ignores_pins() {
    let mut k = key(1, KeyProtection::Unprotected);
    k.pin_support = PinSupport::Ignores;
    assert_eq!(k.set_pin(&b"1234".to_vec()), Ok(()));
    assert_eq!(k.pin, None);
}

#[test]
fn set_pin_records_the_pin_when_the_backend_accepts() {
    let mut k = key(1, KeyProtection::Unprotected);
    assert_eq!(k.set_pin(&b"1234".to_vec()), Ok(()));
    assert_eq!(k.pin, Some(b"1234".to_vec()));
}

#[test]
fn set_pin_surfaces_backend_rejection() {
    let mut k = key(1, KeyProtection::Unprotected);
    k.pin_support = PinSupport::Rejects;
    assert_eq!(k.set_pin(&b"1234".to_vec()), Err(PinError::Rejected));
    assert_eq!(k.pin, None);
}

#[test]
fn pin_injection_is_skipped_on_a_pfx_backed_store() {
    let store = CertStore { certs: Vec::new(), pfx_backed: true };
    let mut k = key(1, KeyProtection::Unprotected);
    assert_eq!(apply_pin(&store, &mut k, &b"1234".to_vec()), Ok(()));
    // Skipped entirely: nothing recorded although the backend accepts.
    assert_eq!(k.pin, None);
}

#[test]
fn pin_injection_goes_through_on_an_os_backed_store() {
    let store = CertStore { certs: Vec::new(), pfx_backed: false };
    let mut k = key(1, KeyProtection::Unprotected);
    assert_eq!(apply_pin(&store, &mut k, &b"1234".to_vec()), Ok(()));
    assert_eq!(k.pin, Some(b"1234".to_vec()));
}

#[test]
fn build_without_signer_is_missing_signer() {
    let b = CmsContentContext::builder().recipients(vec![cert(b"R", 9, None)]);
    assert_eq!(b.build().err(), Some(BuildError::MissingSigner));
}

#[test]
fn build_with_keyless_signer_is_missing_signer() {
    let b = CmsContentContext::builder()
        .signer(cert(b"S", 1, None))
        .recipients(vec![cert(b"R", 9, None)]);
    assert_eq!(b.build().err(), Some(BuildError::MissingSigner));
}

#[test]
fn build_with_empty_recipients_is_no_recipients_even_with_a_signer() {
    let b = CmsContentContext::builder()
        .signer(cert(b"S", 1, Some(key(1, KeyProtection::Unprotected))));
    assert_eq!(b.build().err(), Some(BuildError::NoRecipients));
}

#[test]
fn build_succeeds_with_signer_and_recipients() {
    let ctx = CmsContentContext::builder()
        .signer(cert(b"S", 1, Some(key(1, KeyProtection::Unprotected))))
        .recipients(vec![cert(b"R", 9, None)])
        .build()
        .expect("buildable");
    assert_eq!(ctx.signer.subject, b"S".to_vec());
    assert_eq!(ctx.recipients.len(), 1);
}

#[test]
fn second_signer_call_replaces_the_first() {
    let ctx = CmsContentContext::builder()
        .signer(cert(b"S-old", 1, Some(key(1, KeyProtection::Unprotected))))
        .signer(cert(b"S-new", 2, Some(key(2, KeyProtection::Unprotected))))
        .recipients(vec![cert(b"R", 9, None)])
        .build()
        .expect("buildable");
    assert_eq!(ctx.signer.subject, b"S-new".to_vec());
}

#[test]
fn pfx_password_mismatch_is_an_authentication_error() {
    let archive = PfxArchive {
        password: b"secret".to_vec(),
        entries: vec![cert(b"S", 1, Some(key(1, KeyProtection::Interactive { granted: false })))],
    };
    let r = CertStore::open_from_pfx(&archive, &b"wrong".to_vec());
    assert_eq!(r.err(), Some(StoreError::Authentication));
}

#[test]
fn pfx_open_unlocks_every_bundled_key() {
    let archive = PfxArchive {
        password: b"secret".to_vec(),
        entries: vec![cert(b"S", 1, Some(key(1, KeyProtection::Interactive { granted: false })))],
    };
    let store = CertStore::open_from_pfx(&archive, &b"secret".to_vec()).expect("right password");
    assert!(store.pfx_backed);
    assert_eq!(store.certs.len(), 1);
    // The container password authenticated key access: no prompt left.
    assert_eq!(
        store.certs[0].key.as_ref().map(|k| k.protection),
        Some(KeyProtection::Unprotected)
    );
}

#[test]
fn pfx_open_with_empty_password_is_permitted() {
    let archive = PfxArchive { password: Vec::new(), entries: Vec::new() };
    let store = CertStore::open_from_pfx(&archive, &Vec::new()).expect("empty password matches");
    assert!(store.pfx_backed);
    assert_eq!(store.certs.len(), 0);
}
