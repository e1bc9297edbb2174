//! The certificate and private-key model.
//!
//! A certificate is a public-key credential: a subject name (bytes of the
//! human-readable identity string), an identifier of the key pair its
//! public key belongs to, and, when the surrounding store holds one, a
//! handle to the matching private key. Subject names are not unique, so
//! lookups yield ordered candidate sets rather than single values.

use vstd::prelude::*;

verus! {

/// How a private-key backend guards access to the key.
#[derive(Clone, Copy, Debug, PartialEq, Eq, Structural)]
pub enum KeyProtection {
    /// The key can be used without any user interaction.
    Unprotected,
    /// The backend raises an interactive prompt before releasing the key;
    /// `granted` records the answer the prompt would receive.
    Interactive { granted: bool },
}

/// Whether a key backend honours an injected PIN.
#[derive(Clone, Copy, Debug, PartialEq, Eq, Structural)]
pub enum PinSupport {
    /// PIN injection is meaningless for this backend; applying one is a
    /// no-op success.
    Ignores,
    /// The backend records an injected PIN for later key use.
    Accepts,
    /// The backend refuses PIN injection.
    Rejects,
}

/// PIN application was rejected by the key backend.
#[derive(Clone, Copy, Debug, PartialEq, Eq, Structural)]
pub enum PinError {
    Rejected,
}

/// An opaque, store-backed private-key handle: it permits sign and decrypt
/// operations without exposing raw key material.
#[derive(Debug)]
pub struct PrivateKeyHandle {
    /// Name of the provider/backend that owns the key.
    pub provider: Vec<u8>,
    /// Name of the key within its provider.
    pub key_name: Vec<u8>,
    /// Identifier of the key pair this private key belongs to.
    pub key_id: u64,
    /// Whether the backend will sign with this key (a revoked or expired
    /// key refuses).
    pub can_sign: bool,
    /// How access to the key is guarded.
    pub protection: KeyProtection,
    /// Whether the backend honours an injected PIN.
    pub pin_support: PinSupport,
    /// The PIN applied to this handle, if any.
    pub pin: Option<Vec<u8>>,
}

/// Ghost form of a [`PrivateKeyHandle`].
#[verifier::ext_equal]
pub struct KeyHandleView {
    pub provider: Seq<u8>,
    pub key_name: Seq<u8>,
    pub key_id: u64,
    pub can_sign: bool,
    pub protection: KeyProtection,
    pub pin_support: PinSupport,
    pub pin: Option<Seq<u8>>,
}

impl DeepView for PrivateKeyHandle {
    type V = KeyHandleView;

    open spec fn deep_view(&self) -> KeyHandleView {
        KeyHandleView {
            provider: self.provider@,
            key_name: self.key_name@,
            key_id: self.key_id,
            can_sign: self.can_sign,
            protection: self.protection,
            pin_support: self.pin_support,
            pin: match self.pin {
                Option::Some(p) => Option::Some(p@),
                Option::None => Option::None,
            },
        }
    }
}

impl Clone for PrivateKeyHandle {
    fn clone(&self) -> (r: Self)
        ensures
            r.deep_view() == self.deep_view(),
    {
        let r = PrivateKeyHandle {
            provider: self.provider.clone(),
            key_name: self.key_name.clone(),
            key_id: self.key_id,
            can_sign: self.can_sign,
            protection: self.protection,
            pin_support: self.pin_support,
            pin: match &self.pin {
                Option::Some(p) => Option::Some(p.clone()),
                Option::None => Option::None,
            },
        };
        proof {
            assert(r.provider@ =~= self.provider@);
            assert(r.key_name@ =~= self.key_name@);
            match (&self.pin, &r.pin) {
                (Option::Some(p), Option::Some(q)) => {
                    assert(p@ =~= q@);
                }
                _ => {}
            }
            assert(r.deep_view() =~= self.deep_view());
        }
        r
    }
}

impl PrivateKeyHandle {
    /// Name of the provider/backend that owns the key.
    pub fn get_provider_name(&self) -> (r: Vec<u8>)
        ensures
            r@ == self.provider@,
    {
        let r = self.provider.clone();
        proof {
            assert(r@ =~= self.provider@);
        }
        r
    }

    /// Name of the key within its provider.
    pub fn get_name(&self) -> (r: Vec<u8>)
        ensures
            r@ == self.key_name@,
    {
        let r = self.key_name.clone();
        proof {
            assert(r@ =~= self.key_name@);
        }
        r
    }

    /// Applies a PIN/password to the handle. Backends that ignore PINs
    /// report success without recording anything; backends that reject
    /// PIN injection fail with [`PinError::Rejected`] and leave the handle
    /// unchanged.
    pub fn set_pin(&mut self, pin: &Vec<u8>) -> (r: Result<(), PinError>)
        ensures
            old(self).pin_support == PinSupport::Ignores ==> r is Ok && *final(self)
                == *old(self),
            old(self).pin_support == PinSupport::Accepts ==> r is Ok && final(self).deep_view()
                == (KeyHandleView { pin: Option::Some(pin@), ..old(self).deep_view() }),
            old(self).pin_support == PinSupport::Rejects ==> r
                == Err::<(), PinError>(PinError::Rejected) && *final(self) == *old(self),
    {
        match self.pin_support {
            PinSupport::Ignores => Ok(()),
            PinSupport::Accepts => {
                self.pin = Some(pin.clone());
                proof {
                    match &self.pin {
                        Option::Some(p) => {
                            assert(p@ =~= pin@);
                        }
                        Option::None => {}
                    }
                    assert(self.deep_view() =~= (KeyHandleView {
                        pin: Option::Some(pin@),
                        ..old(self).deep_view()
                    }));
                }
                Ok(())
            }
            PinSupport::Rejects => Err(PinError::Rejected),
        }
    }
}

/// A public-key credential held by a certificate store.
#[derive(Debug)]
pub struct Certificate {
    /// Bytes of the subject name, the imprecise lookup key.
    pub subject: Vec<u8>,
    /// Identifier of the key pair the embedded public key belongs to.
    pub key_id: u64,
    /// Whether the public key is fit for key transport (recipient-side
    /// encryption of a content key).
    pub can_encrypt: bool,
    /// The private key the store holds for this certificate, if any.
    pub key: Option<PrivateKeyHandle>,
}

/// Ghost form of a [`Certificate`].
#[verifier::ext_equal]
pub struct CertView {
    pub subject: Seq<u8>,
    pub key_id: u64,
    pub can_encrypt: bool,
    pub key: Option<KeyHandleView>,
}

impl DeepView for Certificate {
    type V = CertView;

    open spec fn deep_view(&self) -> CertView {
        CertView {
            subject: self.subject@,
            key_id: self.key_id,
            can_encrypt: self.can_encrypt,
            key: match self.key {
                Option::Some(k) => Option::Some(k.deep_view()),
                Option::None => Option::None,
            },
        }
    }
}

impl Clone for Certificate {
    fn clone(&self) -> (r: Self)
        ensures
            r.deep_view() == self.deep_view(),
    {
        let r = Certificate {
            subject: self.subject.clone(),
            key_id: self.key_id,
            can_encrypt: self.can_encrypt,
            key: match &self.key {
                Option::Some(k) => Option::Some(k.clone()),
                Option::None => Option::None,
            },
        };
        proof {
            assert(r.subject@ =~= self.subject@);
            assert(r.deep_view() =~= self.deep_view());
        }
        r
    }
}

/// A certificate is internally consistent when the private key the store
/// associates with it belongs to the same key pair as its public key.
pub open spec fn cert_wf(c: CertView) -> bool {
    match c.key {
        Option::Some(k) => k.key_id == c.key_id,
        Option::None => true,
    }
}

} // verus!
