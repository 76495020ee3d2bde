//! Key setup for the three roles.

use crate::error::ProtocolError;
use crate::keys::{
    IssuerPublicKey, IssuerSecretKey, PolicyPublicKey, PolicySecretKey, Srs, UserPublicKey,
    UserSecretKey, POLICY_ARITY,
};
use crate::primitives::Primitives;
use ark_std::rand::rngs::StdRng;
use vstd::prelude::*;

verus! {

/// An issuer's key pair from what the generator returned: both capabilities
/// are disabled, and a generator that returned nothing is a failed generation.
pub fn issuer_keys(generated: Option<(Vec<u8>, Vec<Vec<u8>>)>) -> (keys: Result<
    (IssuerSecretKey, IssuerPublicKey),
    ProtocolError,
>)
    ensures
        generated is None ==> keys == Err::<(IssuerSecretKey, IssuerPublicKey), _>(
            ProtocolError::KeyGenerationFailed,
        ),
        generated matches Some(material) ==> keys matches Ok(pair) && pair.0.key == material.0
            && pair.1.public_key == material.1 && !pair.0.supports_revocation
            && !pair.0.supports_audit && !pair.1.supports_revocation && !pair.1.supports_audit,
{
    match generated {
        None => Err(ProtocolError::KeyGenerationFailed),
        Some((secret, components)) => Ok(
            (
                IssuerSecretKey { key: secret, supports_revocation: false, supports_audit: false },
                IssuerPublicKey {
                    public_key: components,
                    supports_revocation: false,
                    supports_audit: false,
                },
            ),
        ),
    }
}

/// The verifier's key pair from what the generator returned; both keys are
/// marked with `POLICY_ARITY`, the number of components a policy key covers.
pub fn policy_keys(generated: Option<(Vec<u8>, Vec<u8>)>) -> (keys: Result<
    (PolicySecretKey, PolicyPublicKey),
    ProtocolError,
>)
    ensures
        generated is None ==> keys == Err::<(PolicySecretKey, PolicyPublicKey), _>(
            ProtocolError::KeyGenerationFailed,
        ),
        generated matches Some(material) ==> keys matches Ok(pair) && pair.0.key == material.0
            && pair.1.key == material.1 && pair.0.arity == POLICY_ARITY && pair.1.arity
            == POLICY_ARITY,
{
    match generated {
        None => Err(ProtocolError::KeyGenerationFailed),
        Some((secret, public)) => Ok(
            (
                PolicySecretKey { key: secret, arity: POLICY_ARITY },
                PolicyPublicKey { key: public, arity: POLICY_ARITY },
            ),
        ),
    }
}

/// A user's key pair from what the generator returned; both keys carry the
/// revocation flag as it was given.
pub fn user_keys(generated: (Vec<u8>, Vec<u8>), supports_revocation: bool) -> (keys: (
    UserSecretKey,
    UserPublicKey,
))
    ensures
        keys.0.key == generated.0,
        keys.1.key == generated.1,
        keys.0.supports_revocation == supports_revocation,
        keys.1.supports_revocation == supports_revocation,
{
    (
        UserSecretKey { key: generated.0, supports_revocation },
        UserPublicKey { key: generated.1, supports_revocation },
    )
}

/// Generates an issuer's key pair with revocation and audit disabled.
///
/// The generator of `primitives` is asked once, for a key without
/// capabilities over `srs`, and draws from `rng`, which is left as the
/// generator left it. The call succeeds exactly when the generator hands back
/// key material, and the pair then holds that material; a generator that hands
/// back nothing ends it with `KeyGenerationFailed`.
pub fn setup_issuer<P: Primitives>(primitives: &P, rng: &mut StdRng, srs: &Srs) -> (keys: Result<
    (IssuerSecretKey, IssuerPublicKey),
    ProtocolError,
>)
    ensures
        keys matches Ok(pair) ==> {
            &&& exists|drawn: &mut StdRng|
                *drawn == *old(rng) && *final(drawn) == *final(rng) && #[trigger] call_ensures(
                    P::issuer_keypair,
                    (primitives, drawn, false, false, srs),
                    Some((pair.0.key, pair.1.public_key)),
                )
            &&& !pair.0.supports_revocation && !pair.0.supports_audit
            &&& !pair.1.supports_revocation && !pair.1.supports_audit
        },
        keys matches Err(e) ==> {
            &&& exists|drawn: &mut StdRng|
                *drawn == *old(rng) && *final(drawn) == *final(rng) && #[trigger] call_ensures(
                    P::issuer_keypair,
                    (primitives, drawn, false, false, srs),
                    None,
                )
            &&& e == ProtocolError::KeyGenerationFailed
        },
{
    let generated = primitives.issuer_keypair(rng, false, false, srs);
    issuer_keys(generated)
}

/// Generates the verifier's policy key pair.
///
/// The generator of `primitives` is asked once, for a key that covers
/// `POLICY_ARITY` issuer-key components over `srs`, and draws from `rng`,
/// which is left as the generator left it. The call succeeds exactly when the
/// generator hands back key material, and the pair then holds that material;
/// a generator that hands back nothing ends it with `KeyGenerationFailed`.
pub fn setup_verifier<P: Primitives>(primitives: &P, rng: &mut StdRng, srs: &Srs) -> (keys: Result<
    (PolicySecretKey, PolicyPublicKey),
    ProtocolError,
>)
    ensures
        keys matches Ok(pair) ==> {
            &&& exists|drawn: &mut StdRng|
                *drawn == *old(rng) && *final(drawn) == *final(rng) && #[trigger] call_ensures(
                    P::policy_keypair,
                    (primitives, drawn, POLICY_ARITY, srs),
                    Some((pair.0.key, pair.1.key)),
                )
            &&& pair.0.arity == POLICY_ARITY && pair.1.arity == POLICY_ARITY
        },
        keys matches Err(e) ==> {
            &&& exists|drawn: &mut StdRng|
                *drawn == *old(rng) && *final(drawn) == *final(rng) && #[trigger] call_ensures(
                    P::policy_keypair,
                    (primitives, drawn, POLICY_ARITY, srs),
                    None,
                )
            &&& e == ProtocolError::KeyGenerationFailed
        },
{
    let generated = primitives.policy_keypair(rng, POLICY_ARITY, srs);
    policy_keys(generated)
}

/// Generates a user's key pair.
///
/// The generator of `primitives` is asked once, with `supports_revocation`
/// as it was given, and draws from `rng`, which is left as the generator left
/// it. The pair holds the key material that the generator handed back, and
/// both keys carry the flag.
pub fn setup_user<P: Primitives>(
    primitives: &P,
    rng: &mut StdRng,
    supports_revocation: bool,
    srs: &Srs,
) -> (keys: (UserSecretKey, UserPublicKey))
    ensures
        exists|drawn: &mut StdRng|
            *drawn == *old(rng) && *final(drawn) == *final(rng) && #[trigger] call_ensures(
                P::user_keypair,
                (primitives, drawn, supports_revocation, srs),
                (keys.0.key, keys.1.key),
            ),
        keys.0.supports_revocation == supports_revocation,
        keys.1.supports_revocation == supports_revocation,
{
    let generated = primitives.user_keypair(rng, supports_revocation, srs);
    user_keys(generated, supports_revocation)
}

} // verus!
