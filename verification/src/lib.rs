//! Protocol layer of a delegatable anonymous-credential scheme.
//!
//! The library sequences key setup, issuance, delegation-policy creation and
//! the show/verify exchange. The group arithmetic, commitments and
//! zero-knowledge proofs are supplied by an implementation of
//! [`Primitives`](primitives::Primitives); every decision taken around
//! those calls is verified here.

pub mod challenge;
pub mod error;
pub mod issuance;
pub mod keys;
pub mod policy;
pub mod primitives;
pub mod scalar;
pub mod setup;
pub mod show;
pub mod transcript;

pub use crate::error::ProtocolError;
pub use crate::issuance::{create_credential, Credential};
pub use crate::keys::{
    IssuerPublicKey, IssuerSecretKey, PolicyPublicKey, PolicySecretKey, Srs, UserPublicKey,
    UserSecretKey,
};
pub use crate::policy::{create_verifier_policy, DelegationPolicyProof};
pub use crate::primitives::Primitives;
pub use crate::scalar::Scalar;
pub use crate::setup::{setup_issuer, setup_user, setup_verifier};
pub use crate::show::{show_challenge, show_credential, show_credential_with_nonce, ShowProof};
