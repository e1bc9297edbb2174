//! The two end-to-end operations, driven over an open store: resolve the
//! acting identity by subject query, acquire its key, inject the PIN where
//! applicable, and run the pipeline. Failure surfaces immediately; there
//! is no retry anywhere — a failed key acquisition simply advances the
//! resolver to the next candidate.

use vstd::prelude::*;

use crate::cert::CertView;
use crate::cert::Certificate;
use crate::cert::KeyHandleView;
use crate::cert::PinError;
use crate::cert::PinSupport;
use crate::content::BuildError;
use crate::content::CmsContentContext;
use crate::content::ContextView;
use crate::pipeline::CmsError;
use crate::pipeline::EnvelopeView;
use crate::pipeline::EnvelopedData;
use crate::pipeline::RecipientInfo;
use crate::pipeline::SignatureView;
use crate::pipeline::SignedDataView;
use crate::pipeline::context_can_sign;
use crate::pipeline::context_signing_key;
use crate::pipeline::envelope_openable;
use crate::pipeline::recipients_encryptable;
use crate::pipeline::signature_valid;
use crate::cert::cert_wf;
use crate::pipeline::store_holds_key;
use crate::resolver::acquire_first_usable_key;
use crate::resolver::apply_pin;
use crate::resolver::first_usable;
use crate::resolver::lemma_first_usable_is_member;
use crate::resolver::lemma_first_usable_is_usable;
use crate::store::CertStore;
use crate::store::StoreView;
use crate::store::lemma_matching_certs_are_members;
use crate::store::matching_certs;

verus! {

/// Why an end-to-end operation failed. Every fallible step surfaces its
/// error here unchanged.
#[derive(Debug)]
pub enum OperationError {
    /// The subject query matched no certificate, or matched only
    /// certificates without a usable private key; carries the query so
    /// the report can name it.
    IdentityNotFound(Vec<u8>),
    /// PIN injection was rejected by the key backend.
    Pin(PinError),
    /// The content context could not be built.
    Build(BuildError),
    /// The pipeline transform failed.
    Cms(CmsError),
}

/// Ghost form of an [`OperationError`].
pub enum OperationErrorView {
    IdentityNotFound(Seq<u8>),
    Pin(PinError),
    Build(BuildError),
    Cms(CmsError),
}

impl DeepView for OperationError {
    type V = OperationErrorView;

    open spec fn deep_view(&self) -> OperationErrorView {
        match self {
            OperationError::IdentityNotFound(q) => OperationErrorView::IdentityNotFound(q@),
            OperationError::Pin(e) => OperationErrorView::Pin(*e),
            OperationError::Build(e) => OperationErrorView::Build(*e),
            OperationError::Cms(e) => OperationErrorView::Cms(*e),
        }
    }
}

/// The bytes of an optional PIN.
pub open spec fn opt_bytes_view(pin: Option<Vec<u8>>) -> Option<Seq<u8>> {
    match pin {
        Option::Some(p) => Option::Some(p@),
        Option::None => Option::None,
    }
}

/// PIN injection on `c`'s key fails: a PIN was supplied, the store is not
/// PFX-derived (there injection is skipped entirely), and the key backend
/// rejects injection.
pub open spec fn pin_rejected(c: CertView, pfx_backed: bool, pin: Option<Seq<u8>>) -> bool {
    !pfx_backed && pin is Some && (c.key matches Option::Some(k) && k.pin_support
        == PinSupport::Rejects)
}

/// `c` after PIN injection: the PIN is recorded only when one was
/// supplied, the store is not PFX-derived, and the backend accepts it;
/// in every other successful case the certificate is unchanged.
pub open spec fn pin_applied_cert(c: CertView, pfx_backed: bool, pin: Option<Seq<u8>>) -> CertView {
    match (pin, c.key) {
        (Option::Some(p), Option::Some(k)) => {
            if !pfx_backed && k.pin_support == PinSupport::Accepts {
                CertView { key: Option::Some(KeyHandleView { pin: Option::Some(p), ..k }), ..c }
            } else {
                c
            }
        },
        _ => c,
    }
}

/// All certificates matching any of the queries, query by query, in
/// order — every match of every query is kept, nothing is deduplicated.
pub open spec fn gathered_recipients(certs: Seq<CertView>, queries: Seq<Seq<u8>>) -> Seq<CertView>
    decreases queries.len(),
{
    if queries.len() == 0 {
        Seq::empty()
    } else {
        gathered_recipients(certs, queries.drop_last()) + matching_certs(certs, queries.last())
    }
}

/// Gathers the recipient set for an encode operation: for each query, in
/// order, every certificate of the store whose subject matches it. A
/// query with several matches contributes them all — recipient gathering
/// does not collapse matches the way signer resolution does.
pub fn collect_recipients(store: &CertStore, queries: &Vec<Vec<u8>>) -> (r: Vec<Certificate>)
    ensures
        r.deep_view() == gathered_recipients(store.certs.deep_view(), queries.deep_view()),
{
    let ghost cdv = store.certs.deep_view();
    let ghost qdv = queries.deep_view();
    let n = queries.len();
    let mut out: Vec<Certificate> = Vec::new();
    let mut i: usize = 0;
    while i < n
        invariant
            cdv == store.certs.deep_view(),
            qdv == queries.deep_view(),
            n == queries@.len(),
            0 <= i <= n,
            out.deep_view() == gathered_recipients(cdv, qdv.take(i as int)),
        decreases n - i,
    {
        let mut found = store.find_by_subject_substring(&queries[i]);
        let ghost fdv = found.deep_view();
        let ghost prev = out.deep_view();
        out.append(&mut found);
        proof {
            assert(qdv[i as int] =~= queries@[i as int]@);
            assert(out.deep_view() =~= prev + fdv);
            assert(qdv.take(i + 1).drop_last() =~= qdv.take(i as int));
            assert(qdv.take(i + 1).last() == qdv[i as int]);
        }
        i += 1;
    }
    proof {
        assert(qdv.take(n as int) =~= qdv);
    }
    out
}

/// What `encode` returns, as a function of the store, the queries, the
/// PIN, the silent flag and the message.
pub open spec fn encode_outcome(
    s: StoreView,
    signer_query: Seq<u8>,
    recipient_queries: Seq<Seq<u8>>,
    pin: Option<Seq<u8>>,
    silent: bool,
    msg: Seq<u8>,
) -> Result<EnvelopeView, OperationErrorView> {
    match first_usable(matching_certs(s.certs, signer_query), silent) {
        Option::None => Result::Err(OperationErrorView::IdentityNotFound(signer_query)),
        Option::Some(signer) => {
            if pin_rejected(signer, s.pfx_backed, pin) {
                Result::Err(OperationErrorView::Pin(PinError::Rejected))
            } else {
                let ready = pin_applied_cert(signer, s.pfx_backed, pin);
                let rcpts = gathered_recipients(s.certs, recipient_queries);
                let ctx = ContextView { signer: ready, recipients: rcpts };
                if rcpts.len() == 0 {
                    Result::Err(OperationErrorView::Build(BuildError::NoRecipients))
                } else if !context_can_sign(ctx) {
                    Result::Err(OperationErrorView::Cms(CmsError::Signing))
                } else if !recipients_encryptable(ctx) {
                    Result::Err(OperationErrorView::Cms(CmsError::Encryption))
                } else {
                    Result::Ok(
                        EnvelopeView {
                            recipient_infos: Seq::new(
                                rcpts.len(),
                                |i: int| RecipientInfo { key_id: rcpts[i].key_id },
                            ),
                            inner: SignedDataView {
                                content: msg,
                                signer_cert: ready,
                                signature: SignatureView {
                                    key_id: context_signing_key(ctx),
                                    signed_bytes: msg,
                                },
                            },
                        },
                    )
                }
            }
        },
    }
}

/// The result of `encode`, at the ghost level.
pub open spec fn encode_result_view(r: Result<EnvelopedData, OperationError>) -> Result<
    EnvelopeView,
    OperationErrorView,
> {
    match r {
        Result::Ok(e) => Result::Ok(e.deep_view()),
        Result::Err(x) => Result::Err(x.deep_view()),
    }
}

/// Sign-and-encrypt, end to end: resolves the signer by subject query
/// (first match with a usable key wins), gathers every match of every
/// recipient query, injects the PIN where the store kind calls for it,
/// builds the content context and runs the pipeline.
pub fn encode(
    store: &CertStore,
    signer_query: &Vec<u8>,
    recipient_queries: &Vec<Vec<u8>>,
    pin: &Option<Vec<u8>>,
    silent: bool,
    message: &Vec<u8>,
) -> (r: Result<EnvelopedData, OperationError>)
    ensures
        encode_result_view(r) == encode_outcome(
            store.deep_view(),
            signer_query@,
            recipient_queries.deep_view(),
            opt_bytes_view(*pin),
            silent,
            message@,
        ),
{
    let ghost sdv = store.deep_view();
    let ghost pview = opt_bytes_view(*pin);
    let signers = store.find_by_subject_substring(signer_query);
    let mut signer_cert: Certificate = match acquire_first_usable_key(&signers, silent) {
        Option::Some(c) => c,
        Option::None => {
            let q = signer_query.clone();
            proof {
                assert(q@ =~= signer_query@);
            }
            return Err(OperationError::IdentityNotFound(q));
        },
    };
    let ghost resolved = signer_cert.deep_view();
    proof {
        lemma_first_usable_is_usable(matching_certs(sdv.certs, signer_query@), silent);
    }
    let pin_res: Result<(), PinError> = match pin {
        Option::Some(p) => match &mut signer_cert.key {
            Option::Some(k) => apply_pin(store, k, p),
            Option::None => Ok(()),
        },
        Option::None => Ok(()),
    };
    match pin_res {
        Result::Err(pe) => {
            proof {
                assert(pin_rejected(resolved, sdv.pfx_backed, pview));
            }
            return Err(OperationError::Pin(pe));
        },
        Result::Ok(_) => {
            proof {
                assert(!pin_rejected(resolved, sdv.pfx_backed, pview));
                assert(signer_cert.deep_view() =~= pin_applied_cert(
                    resolved,
                    sdv.pfx_backed,
                    pview,
                ));
            }
        },
    }
    let ghost ready = signer_cert.deep_view();
    let recipients = collect_recipients(store, recipient_queries);
    let ghost rdv = recipients.deep_view();
    let ghost ctx = ContextView { signer: ready, recipients: rdv };
    let built = CmsContentContext::builder().signer(signer_cert).recipients(recipients).build();
    let content = match built {
        Result::Ok(c) => c,
        Result::Err(e) => {
            proof {
                assert(e == BuildError::NoRecipients);
            }
            return Err(OperationError::Build(e));
        },
    };
    proof {
        assert(content.deep_view() =~= ctx);
    }
    match content.sign_and_encrypt(message) {
        Result::Ok(env) => {
            proof {
                let sealed = EnvelopeView {
                    recipient_infos: Seq::new(
                        rdv.len(),
                        |i: int| RecipientInfo { key_id: rdv[i].key_id },
                    ),
                    inner: SignedDataView {
                        content: message@,
                        signer_cert: ready,
                        signature: SignatureView {
                            key_id: context_signing_key(ctx),
                            signed_bytes: message@,
                        },
                    },
                };
                assert(env.deep_view() =~= sealed);
            }
            Ok(env)
        },
        Result::Err(ce) => Err(OperationError::Cms(ce)),
    }
}

/// What `decode` returns, as a function of the store, the query, the
/// PIN, the silent flag and the envelope.
pub open spec fn decode_outcome(
    s: StoreView,
    recipient_query: Seq<u8>,
    pin: Option<Seq<u8>>,
    silent: bool,
    e: EnvelopeView,
) -> Result<Seq<u8>, OperationErrorView> {
    match first_usable(matching_certs(s.certs, recipient_query), silent) {
        Option::None => Result::Err(OperationErrorView::IdentityNotFound(recipient_query)),
        Option::Some(recipient) => {
            if pin_rejected(recipient, s.pfx_backed, pin) {
                Result::Err(OperationErrorView::Pin(PinError::Rejected))
            } else if !envelope_openable(s, e) {
                Result::Err(OperationErrorView::Cms(CmsError::Decryption))
            } else if !signature_valid(e.inner) {
                Result::Err(OperationErrorView::Cms(CmsError::Verification))
            } else {
                Result::Ok(e.inner.content)
            }
        },
    }
}

/// The result of `decode`, at the ghost level.
pub open spec fn decode_result_view(r: Result<Vec<u8>, OperationError>) -> Result<
    Seq<u8>,
    OperationErrorView,
> {
    match r {
        Result::Ok(p) => Result::Ok(p@),
        Result::Err(x) => Result::Err(x.deep_view()),
    }
}

/// Decrypt-and-verify, end to end: resolves the acting recipient by
/// subject query to ensure a usable identity is present, injects the PIN
/// where the store kind calls for it, then lets the pipeline locate the
/// matching recipient key in the store, decrypt, and verify.
pub fn decode(
    store: &CertStore,
    recipient_query: &Vec<u8>,
    pin: &Option<Vec<u8>>,
    silent: bool,
    envelope: EnvelopedData,
) -> (r: Result<Vec<u8>, OperationError>)
    ensures
        decode_result_view(r) == decode_outcome(
            store.deep_view(),
            recipient_query@,
            opt_bytes_view(*pin),
            silent,
            envelope.deep_view(),
        ),
{
    let ghost sdv = store.deep_view();
    let ghost pview = opt_bytes_view(*pin);
    let candidates = store.find_by_subject_substring(recipient_query);
    let mut recipient_cert: Certificate = match acquire_first_usable_key(&candidates, silent) {
        Option::Some(c) => c,
        Option::None => {
            let q = recipient_query.clone();
            proof {
                assert(q@ =~= recipient_query@);
            }
            return Err(OperationError::IdentityNotFound(q));
        },
    };
    let ghost resolved = recipient_cert.deep_view();
    let pin_res: Result<(), PinError> = match pin {
        Option::Some(p) => match &mut recipient_cert.key {
            Option::Some(k) => apply_pin(store, k, p),
            Option::None => Ok(()),
        },
        Option::None => Ok(()),
    };
    match pin_res {
        Result::Err(pe) => {
            proof {
                assert(pin_rejected(resolved, sdv.pfx_backed, pview));
            }
            return Err(OperationError::Pin(pe));
        },
        Result::Ok(_) => {
            proof {
                assert(!pin_rejected(resolved, sdv.pfx_backed, pview));
            }
        },
    }
    match crate::pipeline::decrypt_and_verify(store, envelope) {
        Result::Ok(p) => Ok(p),
        Result::Err(ce) => Err(OperationError::Cms(ce)),
    }
}

/// End-to-end round trip: an envelope that `encode` produced from a
/// sender store with internally consistent certificates decodes back to
/// exactly the encoded message, under any receiver store that holds the
/// private key of one of the envelope's recipients, provided the decode
/// query resolves to a usable identity there and its PIN injection is
/// not rejected.
pub proof fn lemma_encode_decode_round_trip(
    sender: StoreView,
    receiver: StoreView,
    signer_query: Seq<u8>,
    recipient_queries: Seq<Seq<u8>>,
    enc_pin: Option<Seq<u8>>,
    dec_pin: Option<Seq<u8>>,
    enc_silent: bool,
    dec_silent: bool,
    msg: Seq<u8>,
    e: EnvelopeView,
    recipient_query: Seq<u8>,
)
    requires
        forall|j: int| 0 <= j < sender.certs.len() ==> cert_wf(#[trigger] sender.certs[j]),
        encode_outcome(sender, signer_query, recipient_queries, enc_pin, enc_silent, msg)
            == Result::<EnvelopeView, OperationErrorView>::Ok(e),
        exists|i: int|
            0 <= i < e.recipient_infos.len() && store_holds_key(
                receiver,
                (#[trigger] e.recipient_infos[i]).key_id,
            ),
        first_usable(matching_certs(receiver.certs, recipient_query), dec_silent) is Some,
        !pin_rejected(
            first_usable(matching_certs(receiver.certs, recipient_query), dec_silent)->Some_0,
            receiver.pfx_backed,
            dec_pin,
        ),
    ensures
        decode_outcome(receiver, recipient_query, dec_pin, dec_silent, e) == Result::<
            Seq<u8>,
            OperationErrorView,
        >::Ok(msg),
{
    let candidates = matching_certs(sender.certs, signer_query);
    match first_usable(candidates, enc_silent) {
        Option::Some(s0) => {
            lemma_first_usable_is_usable(candidates, enc_silent);
            lemma_first_usable_is_member(candidates, enc_silent);
            let i = choose|i: int| 0 <= i < candidates.len() && candidates[i] == s0;
            lemma_matching_certs_are_members(sender.certs, signer_query, i);
            assert(cert_wf(s0));
            let ready = pin_applied_cert(s0, sender.pfx_backed, enc_pin);
            assert(cert_wf(ready));
            assert(ready.key is Some);
            assert(signature_valid(e.inner));
            assert(envelope_openable(receiver, e));
        }
        Option::None => {
            assert(false);
        }
    }
}

} // verus!
