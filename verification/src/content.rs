//! The CMS content builder: accumulates exactly one signer and a
//! non-empty recipient set, then seals them into an immutable context
//! that the pipeline consumes exactly once.

use vstd::prelude::*;

use crate::cert::CertView;
use crate::cert::Certificate;

verus! {

/// Why a context could not be built.
#[derive(Clone, Copy, Debug, PartialEq, Eq, Structural)]
pub enum BuildError {
    /// No signer was set, or the signer certificate carries no usable
    /// private key.
    MissingSigner,
    /// The recipient set is empty.
    NoRecipients,
}

/// The mutable accumulation object behind [`CmsContentContext::builder`].
#[derive(Debug)]
pub struct CmsContentBuilder {
    /// The signer recorded so far, if any.
    pub signer: Option<Certificate>,
    /// The recipient set recorded so far.
    pub recipients: Vec<Certificate>,
}

/// An immutable, built configuration: one signer whose certificate holds
/// a private key, and one or more recipient certificates (no key needed
/// on the recipient side for encryption).
#[derive(Debug)]
pub struct CmsContentContext {
    /// The signer certificate, with its acquired private key attached.
    pub signer: Certificate,
    /// The recipient certificates, in the order they were gathered.
    pub recipients: Vec<Certificate>,
}

/// Ghost form of a [`CmsContentContext`].
#[verifier::ext_equal]
pub struct ContextView {
    pub signer: CertView,
    pub recipients: Seq<CertView>,
}

impl DeepView for CmsContentContext {
    type V = ContextView;

    open spec fn deep_view(&self) -> ContextView {
        ContextView { signer: self.signer.deep_view(), recipients: self.recipients.deep_view() }
    }
}

/// What `build` guarantees of every context it produces: the signer has
/// a key attached and the recipient set is non-empty.
pub open spec fn context_wf(ctx: ContextView) -> bool {
    &&& ctx.signer.key is Some
    &&& ctx.recipients.len() > 0
}

impl CmsContentContext {
    /// Produces an empty accumulation object.
    pub fn builder() -> (r: CmsContentBuilder)
        ensures
            r.signer is None,
            r.recipients@.len() == 0,
    {
        CmsContentBuilder { signer: None, recipients: Vec::new() }
    }
}

impl CmsContentBuilder {
    /// Records the signer identity: the certificate together with the
    /// private key acquired for it. Calling this twice replaces the
    /// earlier value — last write wins.
    pub fn signer(self, signer: Certificate) -> (r: Self)
        ensures
            r.signer == Option::Some(signer),
            r.recipients == self.recipients,
    {
        CmsContentBuilder { signer: Some(signer), recipients: self.recipients }
    }

    /// Records the recipient set, replacing whatever was recorded before
    /// (a whole-set replace, not an accumulation; the caller gathers all
    /// store matches first).
    pub fn recipients(self, recipients: Vec<Certificate>) -> (r: Self)
        ensures
            r.signer == self.signer,
            r.recipients == recipients,
    {
        CmsContentBuilder { signer: self.signer, recipients }
    }

    /// Seals the accumulated configuration. Fails with
    /// [`BuildError::MissingSigner`] when no signer was set or the signer
    /// certificate lacks a private key, and with
    /// [`BuildError::NoRecipients`] when a signer is present but the
    /// recipient set is empty.
    pub fn build(self) -> (r: Result<CmsContentContext, BuildError>)
        ensures
            r == Err::<CmsContentContext, BuildError>(BuildError::MissingSigner) <==> !(self.signer
                matches Option::Some(c) && c.key is Some),
            r == Err::<CmsContentContext, BuildError>(BuildError::NoRecipients) <==> ((self.signer
                matches Option::Some(c) && c.key is Some) && self.recipients@.len() == 0),
            r is Ok <==> ((self.signer matches Option::Some(c) && c.key is Some)
                && self.recipients@.len() > 0),
            r matches Ok(ctx) ==> Option::Some(ctx.signer) == self.signer && ctx.recipients
                == self.recipients && context_wf(ctx.deep_view()),
    {
        match self.signer {
            Option::None => Err(BuildError::MissingSigner),
            Option::Some(signer) => {
                if signer.key.is_none() {
                    return Err(BuildError::MissingSigner);
                }
                if self.recipients.len() == 0 {
                    return Err(BuildError::NoRecipients);
                }
                Ok(CmsContentContext { signer, recipients: self.recipients })
            }
        }
    }
}

} // verus!
