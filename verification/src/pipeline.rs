//! The CMS pipeline: sign-then-encrypt and its inverse.
//!
//! The pipeline works on the decoded form of the CMS structures — the
//! ASN.1/DER encoding is an external collaborator. A `SignedData` embeds
//! the message, the signer certificate and the signature made over the
//! message; an `EnvelopedData` wraps a `SignedData` for one or more
//! recipients, one `RecipientInfo` per recipient certificate. The
//! signature covers the plaintext, not the envelope: encode signs first
//! and encrypts second, decode decrypts first and verifies second.

use vstd::prelude::*;
use vstd::pervasive::arbitrary;

use crate::bytes::bytes_eq;
use crate::cert::cert_wf;
use crate::content::CmsContentContext;
use crate::content::ContextView;
use crate::content::context_wf;
use crate::store::CertStore;
use crate::store::StoreView;

verus! {

/// Why a pipeline operation failed.
#[derive(Clone, Copy, Debug, PartialEq, Eq, Structural)]
pub enum CmsError {
    /// The key backend refused to sign (no key, or a revoked/expired
    /// key).
    Signing,
    /// A recipient's public key is unusable for key transport.
    Encryption,
    /// No recipient of the envelope has its private key in the store, or
    /// unwrapping failed — deliberately one indistinguishable case, so
    /// that the outcome leaks nothing about which of the two occurred.
    Decryption,
    /// The embedded signature does not validate over the recovered
    /// content.
    Verification,
}

/// A signature over `signed_bytes`, made by the private key of the key
/// pair `key_id`.
#[derive(Debug)]
pub struct Signature {
    pub key_id: u64,
    pub signed_bytes: Vec<u8>,
}

/// Ghost form of a [`Signature`].
#[verifier::ext_equal]
pub struct SignatureView {
    pub key_id: u64,
    pub signed_bytes: Seq<u8>,
}

impl DeepView for Signature {
    type V = SignatureView;

    open spec fn deep_view(&self) -> SignatureView {
        SignatureView { key_id: self.key_id, signed_bytes: self.signed_bytes@ }
    }
}

/// A CMS SignedData structure: the content, the signer certificate, and
/// the signature made over the content.
#[derive(Debug)]
pub struct SignedData {
    pub content: Vec<u8>,
    pub signer_cert: crate::cert::Certificate,
    pub signature: Signature,
}

/// Ghost form of a [`SignedData`].
#[verifier::ext_equal]
pub struct SignedDataView {
    pub content: Seq<u8>,
    pub signer_cert: crate::cert::CertView,
    pub signature: SignatureView,
}

impl DeepView for SignedData {
    type V = SignedDataView;

    open spec fn deep_view(&self) -> SignedDataView {
        SignedDataView {
            content: self.content@,
            signer_cert: self.signer_cert.deep_view(),
            signature: self.signature.deep_view(),
        }
    }
}

/// A per-recipient record of an EnvelopedData: it wraps the content key
/// for the recipient whose key pair is `key_id`.
#[derive(Clone, Copy, Debug, PartialEq, Eq, Structural)]
pub struct RecipientInfo {
    pub key_id: u64,
}

impl DeepView for RecipientInfo {
    type V = RecipientInfo;

    open spec fn deep_view(&self) -> RecipientInfo {
        *self
    }
}

/// A CMS EnvelopedData structure: a SignedData encrypted for one or more
/// recipients, one [`RecipientInfo`] per recipient.
#[derive(Debug)]
pub struct EnvelopedData {
    pub recipient_infos: Vec<RecipientInfo>,
    pub inner: SignedData,
}

/// Ghost form of an [`EnvelopedData`].
#[verifier::ext_equal]
pub struct EnvelopeView {
    pub recipient_infos: Seq<RecipientInfo>,
    pub inner: SignedDataView,
}

impl DeepView for EnvelopedData {
    type V = EnvelopeView;

    open spec fn deep_view(&self) -> EnvelopeView {
        EnvelopeView { recipient_infos: self.recipient_infos.deep_view(), inner: self.inner.deep_view() }
    }
}

/// The key pair the context signs with.
pub open spec fn context_signing_key(ctx: ContextView) -> u64
    recommends
        ctx.signer.key is Some,
{
    match ctx.signer.key {
        Option::Some(k) => k.key_id,
        Option::None => arbitrary(),
    }
}

/// The signer's key backend will sign.
pub open spec fn context_can_sign(ctx: ContextView) -> bool {
    match ctx.signer.key {
        Option::Some(k) => k.can_sign,
        Option::None => false,
    }
}

/// Every recipient's public key is fit for key transport.
pub open spec fn recipients_encryptable(ctx: ContextView) -> bool {
    forall|i: int| 0 <= i < ctx.recipients.len() ==> (#[trigger] ctx.recipients[i]).can_encrypt
}

/// `e` is exactly what sign-then-encrypt produces from `ctx` and `msg`:
/// the content is `msg`, the signature was made over `msg` with the
/// signer's key, the signer certificate rides along, and there is one
/// recipient info per recipient, in order.
pub open spec fn sealed_from(ctx: ContextView, msg: Seq<u8>, e: EnvelopeView) -> bool {
    &&& e.inner.content == msg
    &&& e.inner.signer_cert == ctx.signer
    &&& e.inner.signature.key_id == context_signing_key(ctx)
    &&& e.inner.signature.signed_bytes == msg
    &&& e.recipient_infos.len() == ctx.recipients.len()
    &&& forall|i: int|
        0 <= i < ctx.recipients.len() ==> (#[trigger] e.recipient_infos[i]).key_id
            == ctx.recipients[i].key_id
}

/// The signature embedded in `sd` validates: it was made by the key pair
/// of the embedded signer certificate, over exactly the content carried.
pub open spec fn signature_valid(sd: SignedDataView) -> bool {
    &&& sd.signature.key_id == sd.signer_cert.key_id
    &&& sd.signature.signed_bytes == sd.content
}

/// The store holds a private key of the key pair `key_id`.
pub open spec fn store_holds_key(s: StoreView, key_id: u64) -> bool {
    exists|i: int|
        0 <= i < s.certs.len() && ((#[trigger] s.certs[i]).key matches Option::Some(k)
            && k.key_id == key_id)
}

/// Some recipient info of the sequence names a key pair whose private
/// key the store holds.
pub open spec fn some_recipient_held(s: StoreView, infos: Seq<RecipientInfo>) -> bool {
    exists|i: int|
        0 <= i < infos.len() && store_holds_key(s, (#[trigger] infos[i]).key_id)
}

/// The store can unwrap the envelope's content key.
pub open spec fn envelope_openable(s: StoreView, e: EnvelopeView) -> bool {
    some_recipient_held(s, e.recipient_infos)
}

/// Whether the store holds a private key of the key pair `key_id`.
fn store_holds(store: &CertStore, key_id: u64) -> (r: bool)
    ensures
        r == store_holds_key(store.deep_view(), key_id),
{
    let n = store.certs.len();
    let mut i: usize = 0;
    while i < n
        invariant
            n == store.certs@.len(),
            0 <= i <= n,
            forall|j: int|
                0 <= j < i ==> !((#[trigger] store.certs.deep_view()[j]).key matches Option::Some(
                    k,
                ) && k.key_id == key_id),
        decreases n - i,
    {
        let held = match &store.certs[i].key {
            Option::Some(k) => k.key_id == key_id,
            Option::None => false,
        };
        if held {
            proof {
                assert(store.deep_view().certs[i as int].key matches Option::Some(k) && k.key_id
                    == key_id);
            }
            return true;
        }
        i += 1;
    }
    false
}

/// Whether any recipient info names a key pair whose private key the
/// store holds.
fn any_recipient_held(store: &CertStore, infos: &Vec<RecipientInfo>) -> (r: bool)
    ensures
        r == some_recipient_held(store.deep_view(), infos.deep_view()),
{
    let n = infos.len();
    let mut i: usize = 0;
    while i < n
        invariant
            n == infos@.len(),
            0 <= i <= n,
            forall|j: int|
                0 <= j < i ==> !store_holds_key(
                    store.deep_view(),
                    (#[trigger] infos.deep_view()[j]).key_id,
                ),
        decreases n - i,
    {
        if store_holds(store, infos[i].key_id) {
            proof {
                assert(store_holds_key(store.deep_view(), infos.deep_view()[i as int].key_id));
            }
            return true;
        }
        i += 1;
    }
    false
}

impl CmsContentContext {
    /// Signs `message` with the signer's private key, embedding the
    /// signer certificate and the signature in a SignedData, then
    /// encrypts that structure under a content key wrapped once per
    /// recipient. The context is consumed: it drives exactly one
    /// operation. Fails with [`CmsError::Signing`] when the signer's key
    /// backend refuses to sign, and with [`CmsError::Encryption`] when
    /// some recipient's public key is unusable for key transport.
    pub fn sign_and_encrypt(self, message: &Vec<u8>) -> (r: Result<EnvelopedData, CmsError>)
        ensures
            r is Ok <==> context_can_sign(self.deep_view()) && recipients_encryptable(
                self.deep_view(),
            ),
            r matches Ok(e) ==> sealed_from(self.deep_view(), message@, e.deep_view()),
            r == Err::<EnvelopedData, CmsError>(CmsError::Signing) <==> !context_can_sign(
                self.deep_view(),
            ),
            r == Err::<EnvelopedData, CmsError>(CmsError::Encryption) <==> context_can_sign(
                self.deep_view(),
            ) && !recipients_encryptable(self.deep_view()),
    {
        let (sign_key_id, can_sign) = match &self.signer.key {
            Option::Some(k) => (k.key_id, k.can_sign),
            Option::None => {
                return Err(CmsError::Signing);
            }
        };
        proof {
            assert(context_can_sign(self.deep_view()) == can_sign);
        }
        if !can_sign {
            return Err(CmsError::Signing);
        }
        let n = self.recipients.len();
        let mut infos: Vec<RecipientInfo> = Vec::new();
        let mut i: usize = 0;
        while i < n
            invariant
                context_can_sign(self.deep_view()),
                n == self.recipients@.len(),
                0 <= i <= n,
                infos@.len() == i,
                forall|j: int|
                    0 <= j < i ==> (#[trigger] infos@[j]).key_id
                        == self.recipients.deep_view()[j].key_id,
                forall|j: int|
                    0 <= j < i ==> (#[trigger] self.recipients.deep_view()[j]).can_encrypt,
            decreases n - i,
        {
            if !self.recipients[i].can_encrypt {
                proof {
                    assert(!(self.recipients.deep_view()[i as int]).can_encrypt);
                    assert(!recipients_encryptable(self.deep_view()));
                }
                return Err(CmsError::Encryption);
            }
            infos.push(RecipientInfo { key_id: self.recipients[i].key_id });
            i += 1;
        }
        let signed_bytes = message.clone();
        let content = message.clone();
        proof {
            assert(signed_bytes@ =~= message@);
            assert(content@ =~= message@);
        }
        let signature = Signature { key_id: sign_key_id, signed_bytes };
        let inner = SignedData { content, signer_cert: self.signer, signature };
        let e = EnvelopedData { recipient_infos: infos, inner };
        proof {
            assert(sealed_from(self.deep_view(), message@, e.deep_view()));
        }
        Ok(e)
    }
}

/// Decrypts the envelope with whichever recipient private key the store
/// holds, recovers the embedded SignedData, and returns its content only
/// when the embedded signature verifies over it. Fails with
/// [`CmsError::Decryption`] when the store holds no recipient's private
/// key, and with [`CmsError::Verification`] when the recovered signature
/// does not validate.
pub fn decrypt_and_verify(store: &CertStore, envelope: EnvelopedData) -> (r: Result<
    Vec<u8>,
    CmsError,
>)
    ensures
        r is Ok <==> envelope_openable(store.deep_view(), envelope.deep_view())
            && signature_valid(envelope.deep_view().inner),
        r matches Ok(p) ==> p@ == envelope.inner.content@,
        r == Err::<Vec<u8>, CmsError>(CmsError::Decryption) <==> !envelope_openable(
            store.deep_view(),
            envelope.deep_view(),
        ),
        r == Err::<Vec<u8>, CmsError>(CmsError::Verification) <==> envelope_openable(
            store.deep_view(),
            envelope.deep_view(),
        ) && !signature_valid(envelope.deep_view().inner),
{
    if !any_recipient_held(store, &envelope.recipient_infos) {
        return Err(CmsError::Decryption);
    }
    let key_matches = envelope.inner.signature.key_id == envelope.inner.signer_cert.key_id;
    let content_matches = bytes_eq(&envelope.inner.signature.signed_bytes, &envelope.inner.content);
    if !(key_matches && content_matches) {
        return Err(CmsError::Verification);
    }
    Ok(envelope.inner.content)
}

/// Round trip: an envelope sealed from a built context and a message
/// opens back to exactly that message under any store that holds the
/// private key of one of the context's recipients — the signature is
/// valid by construction, so `decrypt_and_verify` is bound to return the
/// original content.
pub proof fn lemma_round_trip(ctx: ContextView, msg: Seq<u8>, e: EnvelopeView, s: StoreView)
    requires
        context_wf(ctx),
        cert_wf(ctx.signer),
        sealed_from(ctx, msg, e),
        exists|i: int|
            0 <= i < ctx.recipients.len() && store_holds_key(
                s,
                (#[trigger] ctx.recipients[i]).key_id,
            ),
    ensures
        envelope_openable(s, e),
        signature_valid(e.inner),
        e.inner.content == msg,
{
    let i = choose|i: int|
        0 <= i < ctx.recipients.len() && store_holds_key(s, (#[trigger] ctx.recipients[i]).key_id);
    assert(e.recipient_infos[i].key_id == ctx.recipients[i].key_id);
    assert(some_recipient_held(s, e.recipient_infos));
}

/// Tamper detection: an envelope that agrees with a sealed one except
/// that some byte of the carried content was changed no longer has a
/// valid signature, so `decrypt_and_verify` cannot return its content —
/// it fails with [`CmsError::Verification`] whenever the store could
/// open it at all.
pub proof fn lemma_tamper_detected(
    ctx: ContextView,
    msg: Seq<u8>,
    e: EnvelopeView,
    tampered: EnvelopeView,
    i: int,
)
    requires
        sealed_from(ctx, msg, e),
        tampered.recipient_infos == e.recipient_infos,
        tampered.inner.signer_cert == e.inner.signer_cert,
        tampered.inner.signature == e.inner.signature,
        tampered.inner.content.len() == msg.len(),
        0 <= i < msg.len(),
        tampered.inner.content[i] != msg[i],
    ensures
        !signature_valid(tampered.inner),
{
    assert(tampered.inner.signature.signed_bytes == msg);
    assert(tampered.inner.content != msg);
}

/// Wrong-key rejection: a store that holds no recipient's private key
/// cannot open the envelope, so `decrypt_and_verify` fails with
/// [`CmsError::Decryption`] and never returns the plaintext.
pub proof fn lemma_wrong_store_rejected(s: StoreView, e: EnvelopeView)
    requires
        forall|i: int|
            0 <= i < e.recipient_infos.len() ==> !store_holds_key(
                s,
                (#[trigger] e.recipient_infos[i]).key_id,
            ),
    ensures
        !envelope_openable(s, e),
{
}

} // verus!
