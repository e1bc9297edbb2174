//! The certificate store: an open store's contents and subject resolution.
//!
//! A store owns the certificates and private-key handles it yields. It is
//! either backed by an OS store (opened at the process boundary and handed
//! over as its enumerated contents) or derived from a decoded PKCS12
//! container, in which case the container password authenticates access to
//! every bundled key.

use vstd::prelude::*;

use crate::bytes::bytes_eq;
use crate::bytes::contains_subslice;
use crate::bytes::contains_substring;
use crate::cert::CertView;
use crate::cert::Certificate;
use crate::cert::KeyHandleView;
use crate::cert::KeyProtection;

verus! {

/// Failure to obtain an open store.
#[derive(Clone, Copy, Debug, PartialEq, Eq, Structural)]
pub enum StoreError {
    /// The named OS store does not exist or access to it was denied
    /// (reported by the OS backend at the process boundary).
    StoreOpen,
    /// The PKCS12 container was malformed (reported by the external
    /// ASN.1 decoder that produces a [`PfxArchive`]).
    PfxDecode,
    /// The PKCS12 password was wrong.
    Authentication,
}

/// An open certificate store.
#[derive(Debug)]
pub struct CertStore {
    /// The certificates the store holds, in enumeration order.
    pub certs: Vec<Certificate>,
    /// Whether the store was derived from a PKCS12 container. PIN
    /// injection is skipped for such a store: its password already
    /// authenticated key access when it was opened.
    pub pfx_backed: bool,
}

/// Ghost form of a [`CertStore`].
#[verifier::ext_equal]
pub struct StoreView {
    pub certs: Seq<CertView>,
    pub pfx_backed: bool,
}

impl DeepView for CertStore {
    type V = StoreView;

    open spec fn deep_view(&self) -> StoreView {
        StoreView { certs: self.certs.deep_view(), pfx_backed: self.pfx_backed }
    }
}

/// The certificates among `certs` whose subject contains `query`, in the
/// order they are enumerated.
pub open spec fn matching_certs(certs: Seq<CertView>, query: Seq<u8>) -> Seq<CertView>
    decreases certs.len(),
{
    if certs.len() == 0 {
        Seq::empty()
    } else {
        matching_certs(certs.drop_last(), query) + if contains_substring(
            certs.last().subject,
            query,
        ) {
            seq![certs.last()]
        } else {
            Seq::empty()
        }
    }
}

/// Every match is a certificate of the store it was drawn from.
pub proof fn lemma_matching_certs_are_members(certs: Seq<CertView>, query: Seq<u8>, k: int)
    requires
        0 <= k < matching_certs(certs, query).len(),
    ensures
        exists|j: int| 0 <= j < certs.len() && certs[j] == matching_certs(certs, query)[k],
    decreases certs.len(),
{
    if certs.len() > 0 {
        let prev = matching_certs(certs.drop_last(), query);
        if k < prev.len() {
            lemma_matching_certs_are_members(certs.drop_last(), query, k);
            let j = choose|j: int| 0 <= j < certs.drop_last().len() && certs.drop_last()[j]
                == prev[k];
            assert(certs[j] == matching_certs(certs, query)[k]);
        } else {
            assert(matching_certs(certs, query)[k] == certs.last());
            assert(certs[certs.len() - 1] == matching_certs(certs, query)[k]);
        }
    }
}

/// The decoded form of a PKCS12 (PFX) container, as the external ASN.1
/// decoder hands it over: the password that protects it and the
/// certificate-and-key entries it bundles.
#[derive(Debug)]
pub struct PfxArchive {
    /// The password the container was protected with.
    pub password: Vec<u8>,
    /// The bundled certificates, each with its private key if one is
    /// bundled alongside.
    pub entries: Vec<Certificate>,
}

/// A container entry as it appears once the container password has been
/// checked: the password authenticated key access, so the key no longer
/// guards itself with a prompt.
pub open spec fn unlock_cert(c: CertView) -> CertView {
    CertView {
        key: match c.key {
            Option::Some(k) => Option::Some(
                KeyHandleView { protection: KeyProtection::Unprotected, ..k },
            ),
            Option::None => Option::None,
        },
        ..c
    }
}

impl CertStore {
    /// Derives a store from a decoded PKCS12 container. The supplied
    /// password must equal the container's; on a mismatch the result is
    /// [`StoreError::Authentication`] and no store is produced. On success
    /// every bundled key is accessible without further prompting.
    pub fn open_from_pfx(archive: &PfxArchive, password: &Vec<u8>) -> (r: Result<
        CertStore,
        StoreError,
    >)
        ensures
            password@ == archive.password@ ==> (r matches Ok(s) && s.pfx_backed
                && s.certs.deep_view().len() == archive.entries.deep_view().len() && (forall|
                i: int,
            |
                0 <= i < archive.entries.deep_view().len() ==> s.certs.deep_view()[i]
                    == unlock_cert(archive.entries.deep_view()[i]))),
            password@ != archive.password@ ==> r == Err::<CertStore, StoreError>(
                StoreError::Authentication,
            ),
    {
        if !bytes_eq(password, &archive.password) {
            return Err(StoreError::Authentication);
        }
        let n = archive.entries.len();
        let mut certs: Vec<Certificate> = Vec::new();
        let mut i: usize = 0;
        while i < n
            invariant
                n == archive.entries@.len(),
                0 <= i <= n,
                certs.deep_view().len() == i,
                forall|j: int|
                    0 <= j < i ==> certs.deep_view()[j] == unlock_cert(
                        archive.entries.deep_view()[j],
                    ),
            decreases n - i,
        {
            let entry = archive.entries[i].clone();
            let unlocked = Certificate {
                subject: entry.subject,
                key_id: entry.key_id,
                can_encrypt: entry.can_encrypt,
                key: match entry.key {
                    Option::Some(k) => Option::Some(
                        crate::cert::PrivateKeyHandle {
                            protection: KeyProtection::Unprotected,
                            ..k
                        },
                    ),
                    Option::None => Option::None,
                },
            };
            proof {
                assert(unlocked.deep_view() =~= unlock_cert(archive.entries.deep_view()[i as int]));
            }
            let ghost prev = certs.deep_view();
            let ghost unlocked_view = unlocked.deep_view();
            certs.push(unlocked);
            proof {
                assert(certs.deep_view() =~= prev.push(unlocked_view));
            }
            i += 1;
        }
        Ok(CertStore { certs, pfx_backed: true })
    }

    /// Every certificate in the store whose subject name contains `query`
    /// as a case-sensitive byte substring, in store-enumeration order. An
    /// empty result is not an error: the caller decides whether a missing
    /// match is fatal.
    pub fn find_by_subject_substring(&self, query: &Vec<u8>) -> (r: Vec<Certificate>)
        ensures
            r.deep_view() == matching_certs(self.certs.deep_view(), query@),
    {
        let n = self.certs.len();
        let mut out: Vec<Certificate> = Vec::new();
        let mut i: usize = 0;
        while i < n
            invariant
                n == self.certs@.len(),
                0 <= i <= n,
                out.deep_view() == matching_certs(
                    self.certs.deep_view().take(i as int),
                    query@,
                ),
            decreases n - i,
        {
            let ghost dv = self.certs.deep_view();
            proof {
                assert(dv.take(i + 1).drop_last() =~= dv.take(i as int));
                assert(dv.take(i + 1).last() == dv[i as int]);
            }
            if contains_subslice(&self.certs[i].subject, query) {
                let c = self.certs[i].clone();
                let ghost prev = out.deep_view();
                out.push(c);
                proof {
                    assert(out.deep_view() =~= prev + seq![dv[i as int]]);
                }
            } else {
                proof {
                    assert(matching_certs(dv.take(i + 1), query@) =~= matching_certs(
                        dv.take(i as int),
                        query@,
                    ));
                }
            }
            i += 1;
        }
        proof {
            assert(self.certs.deep_view().take(n as int) =~= self.certs.deep_view());
        }
        out
    }
}

} // verus!
