//! Attestation-gated key broker.
//!
//! A client asks for a named secret and supplies a public wrapping key. The
//! broker answers with a single-use challenge. The client returns attestation
//! evidence bound to that challenge; the broker has the evidence verified,
//! appraises the attestation result against a policy and, on a positive
//! verdict only, releases the secret encrypted under the wrapping key.

pub mod attestation;
pub mod challenge;
pub mod client;
pub mod common;
pub mod encoding;
pub mod error;
pub mod keystore;
pub mod policy;
pub mod server;
pub mod text;
pub mod verification;
