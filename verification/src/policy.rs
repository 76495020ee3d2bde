//! Delegation policies: the verifier authorizes issuers by signing their
//! public keys, and hands each key out in a fresh representation.

use crate::challenge::random_scalar;
use crate::error::ProtocolError;
use crate::keys::{IssuerPublicKey, PolicySecretKey, Srs};
use crate::primitives::{spec_key_signed, spec_representation_changed, Primitives};
use crate::scalar::{spec_encodes_scalar, Scalar};
use ark_std::rand::rngs::StdRng;
use vstd::prelude::*;

verus! {

/// An issuer's key in a fresh representation, with the policy signature that
/// holds for that representation.
#[derive(Debug)]
pub struct DelegationPolicyProof {
    pub randomized_pk: IssuerPublicKey,
    pub signature: Vec<u8>,
}

/// Whether a policy key of `arity` covers every key of `issuers`: no key has
/// more components than the arity.
pub open spec fn spec_covers(arity: usize, issuers: Seq<IssuerPublicKey>) -> bool {
    forall|i: int| 0 <= i < issuers.len() ==> (#[trigger] issuers[i]).public_key@.len() <= arity
}

/// Whether a policy key of `arity` covers every key of `issuers`.
pub fn covers(arity: usize, issuers: &Vec<IssuerPublicKey>) -> (covered: bool)
    ensures
        covered == spec_covers(arity, issuers@),
{
    let mut i: usize = 0;
    while i < issuers.len()
        invariant
            i <= issuers.len(),
            forall|j: int| 0 <= j < i ==> (#[trigger] issuers@[j]).public_key@.len() <= arity,
        decreases issuers.len() - i,
    {
        if issuers[i].size() > arity {
            return false;
        }
        i += 1;
    }
    true
}

/// Reassembles an issuer's key from its rerandomized components: the
/// capabilities of `ipk` are carried over unchanged. Components that are not
/// as many as those of `ipk` are no representation of it and are refused.
pub fn randomized_proof(ipk: &IssuerPublicKey, signature: Vec<u8>, key: Vec<Vec<u8>>) -> (proof:
    Result<DelegationPolicyProof, ProtocolError>)
    ensures
        proof is Ok <==> key@.len() == ipk.public_key@.len(),
        proof matches Ok(p) ==> p.signature == signature && p.randomized_pk.public_key == key
            && p.randomized_pk.supports_revocation == ipk.supports_revocation
            && p.randomized_pk.supports_audit == ipk.supports_audit,
        proof matches Err(e) ==> e == ProtocolError::PolicyArityError,
{
    if key.len() != ipk.size() {
        return Err(ProtocolError::PolicyArityError);
    }
    Ok(
        DelegationPolicyProof {
            randomized_pk: IssuerPublicKey {
                public_key: key,
                supports_revocation: ipk.supports_revocation,
                supports_audit: ipk.supports_audit,
            },
            signature,
        },
    )
}

/// What every proof of a policy owes to the issuer key it was made for: the
/// same capabilities and as many components, within the policy key's arity.
pub open spec fn spec_authorizes(
    proof: &DelegationPolicyProof,
    ipk: &IssuerPublicKey,
    arity: usize,
) -> bool {
    &&& proof.randomized_pk.supports_revocation == ipk.supports_revocation
    &&& proof.randomized_pk.supports_audit == ipk.supports_audit
    &&& proof.randomized_pk.public_key@.len() == ipk.public_key@.len()
    &&& ipk.public_key@.len() <= arity
}

/// `proof` is a fresh representation of `ipk` as `primitives` can make it:
/// the policy key signs the components of `ipk`, and that signature and the
/// components are rerandomized with the encoding of a field element into the
/// signature and the components of `proof`.
pub open spec fn spec_rerandomized<P: Primitives>(
    primitives: &P,
    policy_sk: &PolicySecretKey,
    ipk: &IssuerPublicKey,
    srs: &Srs,
    proof: &DelegationPolicyProof,
) -> bool {
    exists|signature: Vec<u8>, rho: Scalar|
        #![trigger
            spec_representation_changed(
                primitives,
                &signature,
                &rho,
                &ipk.public_key,
                (proof.signature, proof.randomized_pk.public_key),
            )
        ]
        {
            &&& spec_key_signed(primitives, policy_sk, ipk, srs, Some(signature))
            &&& spec_encodes_scalar(rho@)
            &&& spec_representation_changed(
                primitives,
                &signature,
                &rho,
                &ipk.public_key,
                (proof.signature, proof.randomized_pk.public_key),
            )
        }
}

/// `primitives` can fail to authorize `ipk`: the policy key does not sign
/// it, or the signed key is rerandomized into components that are not as
/// many as its own.
pub open spec fn spec_refused<P: Primitives>(
    primitives: &P,
    policy_sk: &PolicySecretKey,
    ipk: &IssuerPublicKey,
    srs: &Srs,
) -> bool {
    ||| spec_key_signed(primitives, policy_sk, ipk, srs, None)
    ||| exists|signature: Vec<u8>, rho: Scalar, fresh: (Vec<u8>, Vec<Vec<u8>>)|
        #![trigger
            spec_representation_changed(primitives, &signature, &rho, &ipk.public_key, fresh)
        ]
        {
            &&& spec_key_signed(primitives, policy_sk, ipk, srs, Some(signature))
            &&& spec_encodes_scalar(rho@)
            &&& spec_representation_changed(
                primitives,
                &signature,
                &rho,
                &ipk.public_key,
                fresh,
            )
            &&& fresh.1@.len() != ipk.public_key@.len()
        }
}

/// Authorizes `issuers` under the policy key: one proof per issuer, in the
/// order of `issuers`. For each issuer the policy key signs the key's
/// components, a fresh scalar is drawn, and signature and components are
/// rerandomized with it; the capabilities of the key are carried over.
///
/// When some key has more components than the policy key covers, nothing is
/// signed, the generator is left as it was, and the call ends with
/// `PolicyArityError`. Else the issuers are taken in order, and the call
/// ends with `PolicyArityError` at the first key that the primitives do not
/// sign or rerandomize into components that are not as many as the key's.
/// For no issuers the policy is empty and nothing is drawn.
pub fn create_verifier_policy<P: Primitives>(
    primitives: &P,
    rng: &mut StdRng,
    policy_sk: &PolicySecretKey,
    issuers: Vec<IssuerPublicKey>,
    srs: &Srs,
) -> (policy: Result<Vec<DelegationPolicyProof>, ProtocolError>)
    ensures
        !spec_covers(policy_sk.arity, issuers@) ==> policy == Err::<
            Vec<DelegationPolicyProof>,
            _,
        >(ProtocolError::PolicyArityError) && *final(rng) == *old(rng),
        policy matches Ok(proofs) ==> proofs@.len() == issuers@.len() && forall|i: int|
            0 <= i < issuers@.len() ==> {
                &&& spec_authorizes(#[trigger] &proofs@[i], &issuers@[i], policy_sk.arity)
                &&& spec_rerandomized(primitives, policy_sk, &issuers@[i], srs, &proofs@[i])
            },
        policy matches Err(e) ==> e == ProtocolError::PolicyArityError,
        policy is Err ==> !spec_covers(policy_sk.arity, issuers@) || exists|i: int|
            0 <= i < issuers@.len() && spec_refused(
                primitives,
                policy_sk,
                #[trigger] &issuers@[i],
                srs,
            ),
        issuers@.len() == 0 ==> policy is Ok && *final(rng) == *old(rng),
{
    if !covers(policy_sk.arity, &issuers) {
        return Err(ProtocolError::PolicyArityError);
    }
    let ghost before = *rng;
    let mut proofs: Vec<DelegationPolicyProof> = Vec::new();
    let mut i: usize = 0;
    while i < issuers.len()
        invariant
            i <= issuers.len(),
            proofs@.len() == i,
            i == 0 ==> *rng == before,
            spec_covers(policy_sk.arity, issuers@),
            forall|j: int|
                0 <= j < i ==> {
                    &&& spec_authorizes(#[trigger] &proofs@[j], &issuers@[j], policy_sk.arity)
                    &&& spec_rerandomized(primitives, policy_sk, &issuers@[j], srs, &proofs@[j])
                },
        decreases issuers.len() - i,
    {
        let ipk = &issuers[i];
        let signed = primitives.sign_public_key(rng, policy_sk, ipk, srs);
        proof {
            assert(spec_key_signed(primitives, policy_sk, ipk, srs, signed));
        }
        let signature = match signed {
            Some(signature) => signature,
            None => {
                proof {
                    assert(spec_refused(primitives, policy_sk, &issuers@[i as int], srs));
                }
                return Err(ProtocolError::PolicyArityError);
            },
        };
        let rho = random_scalar(rng);
        let fresh = primitives.change_representation(rng, &signature, &rho, &ipk.public_key);
        let ghost made = fresh;
        proof {
            assert(spec_representation_changed(
                primitives,
                &signature,
                &rho,
                &ipk.public_key,
                made,
            ));
        }
        let proof = match randomized_proof(ipk, fresh.0, fresh.1) {
            Ok(proof) => proof,
            Err(e) => {
                proof {
                    assert(spec_refused(primitives, policy_sk, &issuers@[i as int], srs));
                }
                return Err(e);
            },
        };
        proof {
            assert(proof.signature == made.0 && proof.randomized_pk.public_key == made.1);
            assert(spec_rerandomized(primitives, policy_sk, &issuers@[i as int], srs, &proof));
        }
        proofs.push(proof);
        i += 1;
    }
    Ok(proofs)
}

} // verus!
