//! The cryptographic capabilities the protocol is built on.
//!
//! The pairing arithmetic, the set commitments, the rerandomizable signatures
//! and the proofs of knowledge are not part of this library. An implementation
//! of [`Primitives`] supplies them; the protocol functions only sequence its
//! calls and decide on what they return. No method promises anything of its
//! result: whatever the protocol guarantees, it guarantees for every
//! implementation. The predicates below the trait say that a method can hand
//! back a given result for given arguments, from some state of the random
//! generator; the protocol functions state with them what they asked of the
//! primitives and what they made of the answer.

use crate::issuance::{Credential, RequestContext};
use crate::keys::{
    IssuerPublicKey, IssuerSecretKey, PolicyPublicKey, PolicySecretKey, Srs, UserPublicKey,
    UserSecretKey,
};
use crate::scalar::Scalar;
use crate::show::{ShowContext, ShowProof};
use ark_std::rand::rngs::StdRng;
use vstd::prelude::*;

verus! {

/// The capabilities of the underlying scheme. Keys, commitments, signatures
/// and proofs cross this interface as the bytes of their encodings.
pub trait Primitives {
    /// Makes an issuer's secret key and the components of its public key, or
    /// nothing when the generator fails.
    fn issuer_keypair(
        &self,
        rng: &mut StdRng,
        supports_revocation: bool,
        supports_audit: bool,
        srs: &Srs,
    ) -> Option<(Vec<u8>, Vec<Vec<u8>>)>;

    /// Makes a policy key pair that covers `arity` key components, or nothing
    /// when the generator fails.
    fn policy_keypair(&self, rng: &mut StdRng, arity: usize, srs: &Srs) -> Option<
        (Vec<u8>, Vec<u8>),
    >;

    /// Makes a user's secret and public key.
    fn user_keypair(&self, rng: &mut StdRng, supports_revocation: bool, srs: &Srs) -> (
        Vec<u8>,
        Vec<u8>,
    );

    /// Opens a signature request for the user: the blindings it will use and
    /// the commitment to them that enters the challenge.
    fn begin_request(
        &self,
        rng: &mut StdRng,
        usk: &UserSecretKey,
        auditable: bool,
        srs: &Srs,
    ) -> RequestContext;

    /// Commits to `attributes` and answers `challenge`: the request and the
    /// opening of its commitment, or nothing when no commitment can be made.
    fn generate_request(
        &self,
        rng: &mut StdRng,
        context: &RequestContext,
        attributes: &Vec<Scalar>,
        usk: &UserSecretKey,
        challenge: &Scalar,
        srs: &Srs,
    ) -> Option<(Vec<u8>, Vec<u8>)>;

    /// Whether `request` is a sound request of `upk` for `attributes` under
    /// `challenge`.
    fn verify_request(
        &self,
        request: &Vec<u8>,
        attributes: &Vec<Scalar>,
        upk: &UserPublicKey,
        challenge: &Scalar,
        srs: &Srs,
    ) -> bool;

    /// The issuer's signature on `request`, with no revocation or audit part,
    /// or nothing when the key cannot sign it.
    fn sign_request(
        &self,
        rng: &mut StdRng,
        request: &Vec<u8>,
        isk: &IssuerSecretKey,
        srs: &Srs,
    ) -> Option<Vec<u8>>;

    /// Whether the signature of `credential` holds for its request, opening,
    /// attributes and issuer key.
    fn check_credential(&self, credential: &Credential, srs: &Srs) -> bool;

    /// The policy signature on the components of `ipk`, or nothing when the
    /// policy key does not cover them.
    fn sign_public_key(
        &self,
        rng: &mut StdRng,
        policy_sk: &PolicySecretKey,
        ipk: &IssuerPublicKey,
        srs: &Srs,
    ) -> Option<Vec<u8>>;

    /// Rerandomizes `signature` and the key components `key` with `rho`: the
    /// new signature and the new components.
    fn change_representation(
        &self,
        rng: &mut StdRng,
        signature: &Vec<u8>,
        rho: &Scalar,
        key: &Vec<Vec<u8>>,
    ) -> (Vec<u8>, Vec<Vec<u8>>);

    /// Opens a show of `credential` that discloses `disclosed` under the
    /// rerandomized key `issuer_pk` and the policy signature on it, or nothing
    /// when the credential cannot be shown so.
    fn begin_show(
        &self,
        rng: &mut StdRng,
        credential: &Credential,
        disclosed: &Vec<Scalar>,
        issuer_pk: &IssuerPublicKey,
        policy_signature: &Vec<u8>,
        srs: &Srs,
    ) -> Option<ShowContext>;

    /// Answers `challenge`: the credential-show proof and the proof that the
    /// issuer key is one the policy covers, or nothing when none can be made.
    fn generate_show(&self, context: &ShowContext, challenge: &Scalar) -> Option<
        (Vec<u8>, Vec<u8>),
    >;

    /// Whether the key inside `proof` was authorized under `policy_pk`.
    fn verify_key_anonymity(
        &self,
        proof: &ShowProof,
        challenge: &Scalar,
        policy_pk: &PolicyPublicKey,
        srs: &Srs,
    ) -> bool;

    /// Whether `proof` shows that `disclosed` belongs to a commitment signed
    /// under the key inside it.
    fn verify_credential_show(
        &self,
        proof: &ShowProof,
        challenge: &Scalar,
        disclosed: &Vec<Scalar>,
        revocation_info: &Option<Vec<u8>>,
        srs: &Srs,
    ) -> bool;
}

/// `primitives` can open `context` for a request of `usk`.
pub open spec fn spec_request_begun<P: Primitives>(
    primitives: &P,
    usk: &UserSecretKey,
    auditable: bool,
    srs: &Srs,
    context: RequestContext,
) -> bool {
    exists|drawn: &mut StdRng| #[trigger]
        call_ensures(P::begin_request, (primitives, drawn, usk, auditable, srs), context)
}

/// `primitives` can answer `challenge` in `context` with `produced`: a
/// request on `attributes` and its opening, or nothing.
pub open spec fn spec_request_generated<P: Primitives>(
    primitives: &P,
    context: &RequestContext,
    attributes: &Vec<Scalar>,
    usk: &UserSecretKey,
    challenge: &Scalar,
    srs: &Srs,
    produced: Option<(Vec<u8>, Vec<u8>)>,
) -> bool {
    exists|drawn: &mut StdRng| #[trigger]
        call_ensures(
            P::generate_request,
            (primitives, drawn, context, attributes, usk, challenge, srs),
            produced,
        )
}

/// `primitives` can hand back `signed` when the issuer signs `request`.
pub open spec fn spec_request_signed<P: Primitives>(
    primitives: &P,
    request: &Vec<u8>,
    isk: &IssuerSecretKey,
    srs: &Srs,
    signed: Option<Vec<u8>>,
) -> bool {
    exists|drawn: &mut StdRng| #[trigger]
        call_ensures(P::sign_request, (primitives, drawn, request, isk, srs), signed)
}

/// `primitives` can hand back `signed` when the policy key signs `ipk`.
pub open spec fn spec_key_signed<P: Primitives>(
    primitives: &P,
    policy_sk: &PolicySecretKey,
    ipk: &IssuerPublicKey,
    srs: &Srs,
    signed: Option<Vec<u8>>,
) -> bool {
    exists|drawn: &mut StdRng| #[trigger]
        call_ensures(P::sign_public_key, (primitives, drawn, policy_sk, ipk, srs), signed)
}

/// `primitives` can rerandomize `signature` and `key` with `rho` into
/// `fresh`: the new signature and the new components.
pub open spec fn spec_representation_changed<P: Primitives>(
    primitives: &P,
    signature: &Vec<u8>,
    rho: &Scalar,
    key: &Vec<Vec<u8>>,
    fresh: (Vec<u8>, Vec<Vec<u8>>),
) -> bool {
    exists|drawn: &mut StdRng| #[trigger]
        call_ensures(P::change_representation, (primitives, drawn, signature, rho, key), fresh)
}

/// `primitives` can hand back `context` when a show of `credential` is
/// opened for `disclosed` under `issuer_pk` and its policy signature.
pub open spec fn spec_show_begun<P: Primitives>(
    primitives: &P,
    credential: &Credential,
    disclosed: &Vec<Scalar>,
    issuer_pk: &IssuerPublicKey,
    policy_signature: &Vec<u8>,
    srs: &Srs,
    context: Option<ShowContext>,
) -> bool {
    exists|drawn: &mut StdRng| #[trigger]
        call_ensures(
            P::begin_show,
            (primitives, drawn, credential, disclosed, issuer_pk, policy_signature, srs),
            context,
        )
}

} // verus!
