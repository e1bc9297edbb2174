//! The key resolver: first-usable-key acquisition over an ordered
//! candidate set, and PIN injection centralised so that PFX-derived
//! stores are skipped.
//!
//! A subject query can legitimately match several certificates (renewed
//! certificates, expired beside current ones), and only some of them
//! still carry a live private key. The resolver iterates the candidates
//! in order and takes the first whose key acquisition succeeds; this is
//! iteration over candidates, not a retry of a failed one.

use vstd::prelude::*;

use crate::cert::CertView;
use crate::cert::Certificate;
use crate::cert::KeyHandleView;
use crate::cert::KeyProtection;
use crate::cert::PinError;
use crate::cert::PinSupport;
use crate::cert::PrivateKeyHandle;
use crate::store::CertStore;

verus! {

/// Acquisition of `c`'s private key succeeds: the store holds a key for
/// the certificate, and either the key needs no interaction, or a prompt
/// is allowed (`!silent`) and would be granted. Under `silent`, a key
/// that requires a prompt always fails fast instead of raising one.
pub open spec fn key_usable(c: CertView, silent: bool) -> bool {
    match c.key {
        Option::Some(k) => match k.protection {
            KeyProtection::Unprotected => true,
            KeyProtection::Interactive { granted } => !silent && granted,
        },
        Option::None => false,
    }
}

/// The first candidate, in order, whose key acquisition succeeds.
pub open spec fn first_usable(candidates: Seq<CertView>, silent: bool) -> Option<CertView>
    decreases candidates.len(),
{
    if candidates.len() == 0 {
        Option::None
    } else if key_usable(candidates[0], silent) {
        Option::Some(candidates[0])
    } else {
        first_usable(candidates.skip(1), silent)
    }
}

/// One acquisition attempt on one candidate. In this model the outcome a
/// prompt would have is part of the key's description, so the attempt is
/// a test; the prompt itself is only reached when the key is interactive
/// and `silent` is off.
fn try_acquire_key(c: &Certificate, silent: bool) -> (r: bool)
    ensures
        r == key_usable(c.deep_view(), silent),
{
    match &c.key {
        Option::Some(k) => match k.protection {
            KeyProtection::Unprotected => true,
            KeyProtection::Interactive { granted } => !silent && granted,
        },
        Option::None => false,
    }
}

/// Iterates `candidates` in order and returns the first for which key
/// acquisition succeeds, with its key still attached; later candidates
/// are not attempted. `None` means no candidate had a usable key — not an
/// error by itself: the caller translates absence into its own failure
/// naming the original query.
pub fn acquire_first_usable_key(candidates: &Vec<Certificate>, silent: bool) -> (r: Option<
    Certificate,
>)
    ensures
        r.deep_view() == first_usable(candidates.deep_view(), silent),
{
    let ghost dv = candidates.deep_view();
    proof {
        assert(dv.skip(0) =~= dv);
    }
    let n = candidates.len();
    let mut i: usize = 0;
    while i < n
        invariant
            dv == candidates.deep_view(),
            n == candidates@.len(),
            0 <= i <= n,
            forall|j: int| 0 <= j < i ==> !key_usable(dv[j], silent),
            first_usable(dv, silent) == first_usable(dv.skip(i as int), silent),
        decreases n - i,
    {
        if try_acquire_key(&candidates[i], silent) {
            let c = candidates[i].clone();
            proof {
                assert(dv.skip(i as int)[0] == dv[i as int]);
                assert(first_usable(dv.skip(i as int), silent) == Option::Some(dv[i as int]));
            }
            return Some(c);
        }
        proof {
            assert(dv.skip(i as int).skip(1) =~= dv.skip(i + 1));
            assert(dv.skip(i as int)[0] == dv[i as int]);
        }
        i += 1;
    }
    proof {
        assert(dv.skip(n as int) =~= Seq::<CertView>::empty());
    }
    None
}

/// Applies a PIN through the resolver. For a PFX-derived store the
/// injection is skipped entirely — the container password already
/// authenticated key access — and the key is left untouched; otherwise
/// the key backend decides as [`PrivateKeyHandle::set_pin`] describes.
pub fn apply_pin(store: &CertStore, key: &mut PrivateKeyHandle, pin: &Vec<u8>) -> (r: Result<
    (),
    PinError,
>)
    ensures
        store.pfx_backed ==> r is Ok && *final(key) == *old(key),
        !store.pfx_backed && old(key).pin_support == PinSupport::Ignores ==> r is Ok && *final(key)
            == *old(key),
        !store.pfx_backed && old(key).pin_support == PinSupport::Accepts ==> r is Ok
            && final(key).deep_view() == (KeyHandleView {
            pin: Option::Some(pin@),
            ..old(key).deep_view()
        }),
        !store.pfx_backed && old(key).pin_support == PinSupport::Rejects ==> r == Err::<
            (),
            PinError,
        >(PinError::Rejected) && *final(key) == *old(key),
{
    if store.pfx_backed {
        return Ok(());
    }
    key.set_pin(pin)
}

/// Whatever resolution returns had a usable key: in particular a private
/// key is attached to it.
pub proof fn lemma_first_usable_is_usable(candidates: Seq<CertView>, silent: bool)
    ensures
        first_usable(candidates, silent) matches Option::Some(c) ==> key_usable(c, silent),
    decreases candidates.len(),
{
    if candidates.len() > 0 && !key_usable(candidates[0], silent) {
        lemma_first_usable_is_usable(candidates.skip(1), silent);
    }
}

/// Whatever resolution returns was one of the candidates.
pub proof fn lemma_first_usable_is_member(candidates: Seq<CertView>, silent: bool)
    ensures
        first_usable(candidates, silent) matches Option::Some(c) ==> exists|i: int|
            0 <= i < candidates.len() && candidates[i] == c,
    decreases candidates.len(),
{
    if candidates.len() > 0 && !key_usable(candidates[0], silent) {
        lemma_first_usable_is_member(candidates.skip(1), silent);
        match first_usable(candidates.skip(1), silent) {
            Option::Some(c) => {
                let i = choose|i: int| 0 <= i < candidates.skip(1).len() && candidates.skip(1)[i]
                    == c;
                assert(candidates[i + 1] == c);
            }
            Option::None => {}
        }
    }
}

/// When exactly one candidate has a usable key, first-usable-key
/// resolution returns that candidate, wherever it stands in the order.
pub proof fn lemma_single_usable_candidate_wins(
    candidates: Seq<CertView>,
    silent: bool,
    i: int,
)
    requires
        0 <= i < candidates.len(),
        key_usable(candidates[i], silent),
        forall|j: int| 0 <= j < candidates.len() && j != i ==> !key_usable(candidates[j], silent),
    ensures
        first_usable(candidates, silent) == Option::Some(candidates[i]),
    decreases i,
{
    if i == 0 {
    } else {
        assert(!key_usable(candidates[0], silent));
        lemma_single_usable_candidate_wins(candidates.skip(1), silent, i - 1);
        assert(candidates.skip(1)[i - 1] == candidates[i]);
    }
}

/// When no candidate has a usable key, resolution returns `None`.
pub proof fn lemma_no_usable_candidate_yields_none(candidates: Seq<CertView>, silent: bool)
    requires
        forall|j: int| 0 <= j < candidates.len() ==> !key_usable(candidates[j], silent),
    ensures
        first_usable(candidates, silent) is None,
    decreases candidates.len(),
{
    if candidates.len() > 0 {
        lemma_no_usable_candidate_yields_none(candidates.skip(1), silent);
    }
}

/// Under silent mode no prompt is consulted: a key is usable exactly when
/// it needs no interaction at all, whatever answer its prompt would have
/// received.
pub proof fn lemma_silent_consults_no_prompt(c: CertView)
    ensures
        key_usable(c, true) <==> (c.key matches Option::Some(k) && k.protection
            == KeyProtection::Unprotected),
{
}

} // verus!
