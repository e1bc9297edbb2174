//! Certificate resolution and CMS sign/encrypt orchestration.
//!
//! The crate models a certificate store as plain data: every certificate
//! carries its subject name as bytes, an identifier for the key pair its
//! public key belongs to, and (when the store holds one) a private-key
//! handle. On top of that model it verifies the logic that drives a CMS
//! operation end to end: subject-substring resolution, first-usable-key
//! acquisition, PIN injection, content assembly, and the sign-then-encrypt
//! and decrypt-then-verify transforms. The ASN.1/DER encoding of the CMS
//! structures and the physical store backends (an OS store, PKCS12 parsing)
//! are external collaborators; the crate works on their decoded form.

pub mod bytes;
pub mod cert;
pub mod content;
pub mod ops;
pub mod pipeline;
pub mod resolver;
pub mod store;
