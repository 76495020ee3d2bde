//! Showing a credential and verifying the show.
//!
//! The prover and the verifier derive the challenge of a show each from
//! their own copy of the transcript: the proof's commitment, the generator,
//! the nonce and the disclosed attributes. A proof verifies only against the
//! challenge and the disclosed attributes that it was made for.

use crate::challenge::{derive_challenge, oracle_scalar};
use crate::error::ProtocolError;
use crate::issuance::Credential;
use crate::keys::{IssuerPublicKey, PolicyPublicKey, Srs};
use crate::primitives::{spec_show_begun, Primitives};
use crate::scalar::{copy_bytes, encodings, same_scalars, spec_encodes_scalar, Scalar};
use crate::transcript::{framable, lemma_frame_injective, segments, spec_frame};
use ark_std::rand::rngs::StdRng;
use vstd::prelude::*;

verus! {

/// An open show: the prover's blindings and the commitment to them that
/// enters the challenge.
#[derive(Debug)]
pub struct ShowContext {
    pub state: Vec<u8>,
    pub commitment: Vec<u8>,
}

/// A show of a credential: the two proofs, and in the clear what they were
/// made for.
#[derive(Debug)]
pub struct ShowProof {
    pub credential_show: Vec<u8>,
    pub pubkey_anonymity_proof: Vec<u8>,
    pub commitment: Vec<u8>,
    pub disclosed: Vec<Scalar>,
    pub challenge: Scalar,
}

/// The nonce of a show for which the caller names none: the bytes 1, 2, 3.
///
/// A show under this nonce is not bound to a session, so its proof can be
/// presented again. Callers that need freshness pass a nonce of their own to
/// [`show_credential_with_nonce`] and to [`show_challenge`].
pub fn default_nonce() -> (nonce: Vec<u8>)
    ensures
        nonce@ == seq![1u8, 2u8, 3u8],
{
    let mut nonce: Vec<u8> = Vec::new();
    nonce.push(1u8);
    nonce.push(2u8);
    nonce.push(3u8);
    proof {
        assert(nonce@ =~= seq![1u8, 2u8, 3u8]);
    }
    nonce
}

/// The segments of a show transcript: the commitment, the first generator,
/// the nonce, and then the disclosed attributes in order.
pub open spec fn spec_show_parts(
    commitment: Seq<u8>,
    generator: Seq<u8>,
    nonce: Seq<u8>,
    disclosed: Seq<Seq<u8>>,
) -> Seq<Seq<u8>> {
    seq![commitment, generator, nonce] + disclosed
}

/// The challenge of the show with these segments: the oracle's scalar for
/// their transcript.
pub open spec fn spec_show_challenge(
    commitment: Seq<u8>,
    generator: Seq<u8>,
    nonce: Seq<u8>,
    disclosed: Seq<Seq<u8>>,
) -> Seq<u8> {
    oracle_scalar(spec_frame(spec_show_parts(commitment, generator, nonce, disclosed)))
}

/// A show transcript determines what it was made of: two shows with the same
/// transcript have the same commitment, generator, nonce and disclosed
/// attributes. So a verifier that takes another nonce or other disclosed
/// attributes than the prover hashes another transcript.
pub proof fn lemma_show_transcript_binds(
    commitment_a: Seq<u8>,
    generator_a: Seq<u8>,
    nonce_a: Seq<u8>,
    disclosed_a: Seq<Seq<u8>>,
    commitment_b: Seq<u8>,
    generator_b: Seq<u8>,
    nonce_b: Seq<u8>,
    disclosed_b: Seq<Seq<u8>>,
)
    requires
        framable(spec_show_parts(commitment_a, generator_a, nonce_a, disclosed_a)),
        framable(spec_show_parts(commitment_b, generator_b, nonce_b, disclosed_b)),
        spec_frame(spec_show_parts(commitment_a, generator_a, nonce_a, disclosed_a))
            == spec_frame(spec_show_parts(commitment_b, generator_b, nonce_b, disclosed_b)),
    ensures
        commitment_a == commitment_b,
        generator_a == generator_b,
        nonce_a == nonce_b,
        disclosed_a == disclosed_b,
{
    let a = spec_show_parts(commitment_a, generator_a, nonce_a, disclosed_a);
    let b = spec_show_parts(commitment_b, generator_b, nonce_b, disclosed_b);
    lemma_frame_injective(a, b);
    assert(a[0] == commitment_a && a[1] == generator_a && a[2] == nonce_a);
    assert(b[0] == commitment_b && b[1] == generator_b && b[2] == nonce_b);
    assert(a.skip(3) =~= disclosed_a);
    assert(b.skip(3) =~= disclosed_b);
}

/// The challenge of a show: the oracle's scalar for the transcript of the
/// commitment, the generator, the nonce and the disclosed attributes. Prover
/// and verifier both derive it here.
pub fn show_challenge(commitment: &Vec<u8>, disclosed: &Vec<Scalar>, srs: &Srs, nonce: &[u8]) -> (challenge:
    Scalar)
    ensures
        challenge@ == spec_show_challenge(
            commitment@,
            srs.generator_g1@,
            nonce@,
            encodings(disclosed@),
        ),
        spec_encodes_scalar(challenge@),
{
    let mut parts: Vec<Vec<u8>> = Vec::new();
    parts.push(copy_bytes(commitment.as_slice()));
    parts.push(copy_bytes(srs.generator_g1.as_slice()));
    parts.push(copy_bytes(nonce));
    let mut i: usize = 0;
    while i < disclosed.len()
        invariant
            i <= disclosed.len(),
            parts@.len() == 3 + i,
            parts@[0]@ == commitment@,
            parts@[1]@ == srs.generator_g1@,
            parts@[2]@ == nonce@,
            forall|j: int| 0 <= j < i ==> (#[trigger] parts@[3 + j])@ == disclosed@[j]@,
        decreases disclosed.len() - i,
    {
        parts.push(copy_bytes(disclosed[i].bytes.as_slice()));
        i += 1;
    }
    proof {
        let expected = spec_show_parts(
            commitment@,
            srs.generator_g1@,
            nonce@,
            encodings(disclosed@),
        );
        assert(segments(parts@).len() == expected.len());
        assert forall|k: int| 0 <= k < expected.len() implies segments(parts@)[k]
            == expected[k] by {
            if k >= 3 {
                assert(parts@[3 + (k - 3)]@ == disclosed@[k - 3]@);
            }
        }
        assert(segments(parts@) =~= expected);
    }
    derive_challenge(&parts)
}

/// The disclosed values are no more than the attributes, and every one of
/// them is one of the attributes.
pub open spec fn spec_discloses(attributes: Seq<Seq<u8>>, disclosed: Seq<Seq<u8>>) -> bool {
    &&& disclosed.len() <= attributes.len()
    &&& forall|i: int| 0 <= i < disclosed.len() ==> attributes.contains(#[trigger] disclosed[i])
}

/// Any leading part of the attributes can be disclosed: a show of the first
/// `count` attributes of a credential is never refused for its disclosure.
pub proof fn lemma_prefix_is_disclosable(attributes: Seq<Seq<u8>>, count: int)
    requires
        0 <= count <= attributes.len(),
    ensures
        spec_discloses(attributes, attributes.take(count)),
{
    let disclosed = attributes.take(count);
    assert forall|i: int| 0 <= i < disclosed.len() implies attributes.contains(
        #[trigger] disclosed[i],
    ) by {
        assert(attributes[i] == disclosed[i]);
    }
}

/// Whether `value` is one of `attributes`.
pub fn holds_attribute(attributes: &Vec<Scalar>, value: &Scalar) -> (held: bool)
    ensures
        held == encodings(attributes@).contains(value@),
{
    let mut i: usize = 0;
    while i < attributes.len()
        invariant
            i <= attributes.len(),
            forall|j: int| 0 <= j < i ==> (#[trigger] encodings(attributes@)[j]) != value@,
        decreases attributes.len() - i,
    {
        if attributes[i].equals(value) {
            proof {
                assert(encodings(attributes@)[i as int] == value@);
            }
            return true;
        }
        i += 1;
    }
    false
}

/// Whether `disclosed` are no more values than `attributes` and every one of
/// them is one of `attributes`.
pub fn discloses(attributes: &Vec<Scalar>, disclosed: &Vec<Scalar>) -> (valid: bool)
    ensures
        valid == spec_discloses(encodings(attributes@), encodings(disclosed@)),
{
    if disclosed.len() > attributes.len() {
        return false;
    }
    let mut i: usize = 0;
    while i < disclosed.len()
        invariant
            i <= disclosed.len(),
            forall|j: int|
                0 <= j < i ==> encodings(attributes@).contains(
                    #[trigger] encodings(disclosed@)[j],
                ),
        decreases disclosed.len() - i,
    {
        if !holds_attribute(attributes, &disclosed[i]) {
            proof {
                assert(encodings(disclosed@)[i as int] == disclosed@[i as int]@);
            }
            return false;
        }
        i += 1;
    }
    true
}

/// A credential can be shown with `disclosed` when it fits the parameters,
/// the disclosed values are no more than its attributes, and every one of
/// them is one of its attributes.
pub open spec fn spec_showable(credential: &Credential, disclosed: Seq<Scalar>, srs: &Srs) -> bool {
    &&& credential.spec_well_formed(srs)
    &&& spec_discloses(encodings(credential.attributes@), encodings(disclosed))
}

/// A show proof from what the primitives answered: the two parts they gave,
/// with the commitment, the disclosed values and the challenge in the clear.
/// Primitives that answered with nothing made no show.
pub fn show_proof(
    generated: Option<(Vec<u8>, Vec<u8>)>,
    commitment: Vec<u8>,
    disclosed: Vec<Scalar>,
    challenge: Scalar,
) -> (made: Result<ShowProof, ProtocolError>)
    ensures
        generated is None ==> made == Err::<ShowProof, _>(ProtocolError::InvalidDisclosureRequest),
        generated matches Some(parts) ==> made matches Ok(proof) && proof.credential_show
            == parts.0 && proof.pubkey_anonymity_proof == parts.1 && proof.commitment
            == commitment && proof.disclosed == disclosed && proof.challenge == challenge,
{
    match generated {
        None => Err(ProtocolError::InvalidDisclosureRequest),
        Some((credential_show, pubkey_anonymity_proof)) => Ok(
            ShowProof { credential_show, pubkey_anonymity_proof, commitment, disclosed, challenge },
        ),
    }
}

/// `proof` is a show as `primitives` can make it: a show of `credential` is
/// opened for `disclosed` under `issuer_pk` and its policy signature, the
/// challenge is that of the transcript of the show's commitment, the
/// generator, `nonce` and the disclosed values, and the primitives answer it
/// with the two parts of `proof`. The proof carries the commitment, the
/// disclosed values and the challenge in the clear.
pub open spec fn spec_shown<P: Primitives>(
    primitives: &P,
    credential: &Credential,
    disclosed: &Vec<Scalar>,
    issuer_pk: &IssuerPublicKey,
    policy_sig: &Vec<u8>,
    srs: &Srs,
    nonce: Seq<u8>,
    proof: &ShowProof,
) -> bool {
    &&& encodings(proof.disclosed@) == encodings(disclosed@)
    &&& proof.challenge@ == spec_show_challenge(
        proof.commitment@,
        srs.generator_g1@,
        nonce,
        encodings(disclosed@),
    )
    &&& exists|context: ShowContext|
        #![trigger
            spec_show_begun(
                primitives,
                credential,
                disclosed,
                issuer_pk,
                policy_sig,
                srs,
                Some(context),
            )
        ]
        {
            &&& spec_show_begun(
                primitives,
                credential,
                disclosed,
                issuer_pk,
                policy_sig,
                srs,
                Some(context),
            )
            &&& context.commitment@ == proof.commitment@
            &&& call_ensures(
                P::generate_show,
                (primitives, &context, &proof.challenge),
                Some((proof.credential_show, proof.pubkey_anonymity_proof)),
            )
        }
}

/// `primitives` can fail to make a show: no show is opened, or the challenge
/// of the show that was opened is answered with nothing.
pub open spec fn spec_show_refused<P: Primitives>(
    primitives: &P,
    credential: &Credential,
    disclosed: &Vec<Scalar>,
    issuer_pk: &IssuerPublicKey,
    policy_sig: &Vec<u8>,
    srs: &Srs,
    nonce: Seq<u8>,
) -> bool {
    ||| spec_show_begun(primitives, credential, disclosed, issuer_pk, policy_sig, srs, None)
    ||| exists|context: ShowContext, challenge: Scalar|
        #![trigger call_ensures(P::generate_show, (primitives, &context, &challenge), None)]
        {
            &&& spec_show_begun(
                primitives,
                credential,
                disclosed,
                issuer_pk,
                policy_sig,
                srs,
                Some(context),
            )
            &&& challenge@ == spec_show_challenge(
                context.commitment@,
                srs.generator_g1@,
                nonce,
                encodings(disclosed@),
            )
            &&& call_ensures(P::generate_show, (primitives, &context, &challenge), None)
        }
}

/// Shows `credential` under the rerandomized issuer key `issuer_pk` and the
/// policy signature on it, disclosing `disclosed` and binding the proof to
/// `nonce`.
///
/// A credential that does not fit the parameters, more disclosed values than
/// it has attributes, or a disclosed value that is none of its attributes,
/// ends the call with `InvalidDisclosureRequest` before the primitives are
/// asked for anything: the generator is left as it was. Else the primitives
/// open a show, the challenge of its transcript is derived, and the
/// primitives answer it; the call succeeds exactly when both steps do, and
/// ends with `InvalidDisclosureRequest` when one of them gives nothing. The
/// proof returned holds the two parts that the primitives gave and carries
/// the commitment, the disclosed values and the challenge in the clear.
pub fn show_credential_with_nonce<P: Primitives>(
    primitives: &P,
    rng: &mut StdRng,
    credential: &Credential,
    disclosed_attributes: Vec<Scalar>,
    issuer_pk: &IssuerPublicKey,
    policy_sig: Vec<u8>,
    srs: &Srs,
    nonce: &[u8],
) -> (shown: Result<ShowProof, ProtocolError>)
    ensures
        !spec_showable(credential, disclosed_attributes@, srs) ==> shown == Err::<ShowProof, _>(
            ProtocolError::InvalidDisclosureRequest,
        ) && *final(rng) == *old(rng),
        shown matches Ok(proof) ==> spec_showable(credential, disclosed_attributes@, srs)
            && spec_shown(
            primitives,
            credential,
            &disclosed_attributes,
            issuer_pk,
            &policy_sig,
            srs,
            nonce@,
            &proof,
        ),
        shown matches Err(e) ==> e == ProtocolError::InvalidDisclosureRequest,
        shown is Err ==> !spec_showable(credential, disclosed_attributes@, srs)
            || spec_show_refused(
            primitives,
            credential,
            &disclosed_attributes,
            issuer_pk,
            &policy_sig,
            srs,
            nonce@,
        ),
{
    if !credential.is_well_formed(srs) || !discloses(
        &credential.attributes,
        &disclosed_attributes,
    ) {
        return Err(ProtocolError::InvalidDisclosureRequest);
    }
    let begun = primitives.begin_show(
        rng,
        credential,
        &disclosed_attributes,
        issuer_pk,
        &policy_sig,
        srs,
    );
    let ghost opened = begun;
    proof {
        assert(spec_show_begun(
            primitives,
            credential,
            &disclosed_attributes,
            issuer_pk,
            &policy_sig,
            srs,
            opened,
        ));
    }
    let context = match begun {
        Some(context) => context,
        None => { return Err(ProtocolError::InvalidDisclosureRequest); },
    };
    let challenge = show_challenge(&context.commitment, &disclosed_attributes, srs, nonce);
    let generated = primitives.generate_show(&context, &challenge);
    let ghost answered = generated;
    let ghost derived = challenge;
    let commitment = copy_bytes(context.commitment.as_slice());
    match show_proof(generated, commitment, disclosed_attributes, challenge) {
        Ok(proof) => {
            proof {
                assert(opened == Some(context));
                assert(answered == Some((proof.credential_show, proof.pubkey_anonymity_proof)));
                assert(spec_shown(
                    primitives,
                    credential,
                    &disclosed_attributes,
                    issuer_pk,
                    &policy_sig,
                    srs,
                    nonce@,
                    &proof,
                ));
            }
            Ok(proof)
        },
        Err(e) => {
            proof {
                assert(opened == Some(context));
                assert(call_ensures(P::generate_show, (primitives, &context, &derived), None));
                assert(spec_show_refused(
                    primitives,
                    credential,
                    &disclosed_attributes,
                    issuer_pk,
                    &policy_sig,
                    srs,
                    nonce@,
                ));
            }
            Err(e)
        },
    }
}

/// Shows `credential` as [`show_credential_with_nonce`] does, under the
/// nonce of [`default_nonce`].
pub fn show_credential<P: Primitives>(
    primitives: &P,
    rng: &mut StdRng,
    credential: &Credential,
    disclosed_attributes: Vec<Scalar>,
    issuer_pk: &IssuerPublicKey,
    policy_sig: Vec<u8>,
    srs: &Srs,
) -> (shown: Result<ShowProof, ProtocolError>)
    ensures
        !spec_showable(credential, disclosed_attributes@, srs) ==> shown == Err::<ShowProof, _>(
            ProtocolError::InvalidDisclosureRequest,
        ) && *final(rng) == *old(rng),
        shown matches Ok(proof) ==> spec_showable(credential, disclosed_attributes@, srs)
            && spec_shown(
            primitives,
            credential,
            &disclosed_attributes,
            issuer_pk,
            &policy_sig,
            srs,
            seq![1u8, 2u8, 3u8],
            &proof,
        ),
        shown matches Err(e) ==> e == ProtocolError::InvalidDisclosureRequest,
        shown is Err ==> !spec_showable(credential, disclosed_attributes@, srs)
            || spec_show_refused(
            primitives,
            credential,
            &disclosed_attributes,
            issuer_pk,
            &policy_sig,
            srs,
            seq![1u8, 2u8, 3u8],
        ),
{
    let nonce = default_nonce();
    show_credential_with_nonce(
        primitives,
        rng,
        credential,
        disclosed_attributes,
        issuer_pk,
        policy_sig,
        srs,
        nonce.as_slice(),
    )
}

/// The oracle tells `a` and `b` apart: unless they are the same bytes, it
/// gives them different scalars.
pub open spec fn spec_oracle_separates(a: Seq<u8>, b: Seq<u8>) -> bool {
    a != b ==> oracle_scalar(a) != oracle_scalar(b)
}

/// A verifier that derives its challenge under another nonce than the
/// prover's, or for other disclosed values, is turned away with a challenge
/// mismatch whatever the other checks say, as long as the oracle tells the
/// two transcripts apart.
pub proof fn lemma_other_nonce_or_disclosure_is_a_mismatch(
    commitment: Seq<u8>,
    generator: Seq<u8>,
    nonce_shown: Seq<u8>,
    disclosed_shown: Seq<Seq<u8>>,
    nonce_claimed: Seq<u8>,
    disclosed_claimed: Seq<Seq<u8>>,
    disclosure_matches: bool,
    key_authorized: bool,
    credential_shown: bool,
)
    requires
        framable(spec_show_parts(commitment, generator, nonce_shown, disclosed_shown)),
        framable(spec_show_parts(commitment, generator, nonce_claimed, disclosed_claimed)),
        nonce_shown != nonce_claimed || disclosed_shown != disclosed_claimed,
    ensures
        spec_oracle_separates(
            spec_frame(spec_show_parts(commitment, generator, nonce_shown, disclosed_shown)),
            spec_frame(spec_show_parts(commitment, generator, nonce_claimed, disclosed_claimed)),
        ) ==> spec_verdict(
            spec_show_challenge(commitment, generator, nonce_claimed, disclosed_claimed)
                == spec_show_challenge(commitment, generator, nonce_shown, disclosed_shown),
            disclosure_matches,
            key_authorized,
            credential_shown,
        ) == Err::<(), ProtocolError>(ProtocolError::ChallengeMismatch),
{
    let shown = spec_show_parts(commitment, generator, nonce_shown, disclosed_shown);
    let claimed = spec_show_parts(commitment, generator, nonce_claimed, disclosed_claimed);
    if spec_frame(shown) == spec_frame(claimed) {
        lemma_show_transcript_binds(
            commitment,
            generator,
            nonce_shown,
            disclosed_shown,
            commitment,
            generator,
            nonce_claimed,
            disclosed_claimed,
        );
    }
}

/// Two shows over one commitment, one generator, one nonce and the same
/// disclosed values carry the same challenge: the challenge is a function of
/// the transcript and of nothing else.
pub proof fn lemma_one_transcript_one_challenge<P: Primitives>(
    primitives: &P,
    credential: &Credential,
    disclosed: &Vec<Scalar>,
    issuer_pk: &IssuerPublicKey,
    policy_sig: &Vec<u8>,
    srs: &Srs,
    nonce: Seq<u8>,
    first: &ShowProof,
    second: &ShowProof,
)
    requires
        spec_shown(primitives, credential, disclosed, issuer_pk, policy_sig, srs, nonce, first),
        spec_shown(primitives, credential, disclosed, issuer_pk, policy_sig, srs, nonce, second),
        first.commitment@ == second.commitment@,
    ensures
        first.challenge@ == second.challenge@,
{
}

/// The outcome of a verification from its four checks. A challenge that is
/// not the proof's own is a mismatch, whatever else holds; with the right
/// challenge, the proof is accepted when it was made for the disclosed
/// values and both of its parts verify, and rejected without saying which
/// check failed.
pub open spec fn spec_verdict(
    challenge_matches: bool,
    disclosure_matches: bool,
    key_authorized: bool,
    credential_shown: bool,
) -> Result<(), ProtocolError> {
    if !challenge_matches {
        Err(ProtocolError::ChallengeMismatch)
    } else if disclosure_matches && key_authorized && credential_shown {
        Ok(())
    } else {
        Err(ProtocolError::ProofVerificationFailed)
    }
}

/// Decides a verification from its four checks.
pub fn verification_verdict(
    challenge_matches: bool,
    disclosure_matches: bool,
    key_authorized: bool,
    credential_shown: bool,
) -> (verdict: Result<(), ProtocolError>)
    ensures
        verdict == spec_verdict(
            challenge_matches,
            disclosure_matches,
            key_authorized,
            credential_shown,
        ),
{
    if !challenge_matches {
        Err(ProtocolError::ChallengeMismatch)
    } else if disclosure_matches && key_authorized && credential_shown {
        Ok(())
    } else {
        Err(ProtocolError::ProofVerificationFailed)
    }
}

impl ShowProof {
    /// Verifies the show against the challenge that the verifier derived, the
    /// disclosed attributes it was told, and the policy key.
    ///
    /// Another challenge than the proof's own is a `ChallengeMismatch`, and the
    /// primitives are not asked. Under the proof's own challenge both checks
    /// of the primitives are asked, on this proof and this challenge: whether
    /// the key inside the proof is authorized under `policy_pk`, and whether
    /// the disclosed values belong to a commitment signed under that key. The
    /// call succeeds exactly when both hold and `disclosed_attributes` are the
    /// values the proof was made for; every other outcome is a
    /// `ProofVerificationFailed`.
    pub fn verify<P: Primitives>(
        &self,
        primitives: &P,
        challenge: &Scalar,
        disclosed_attributes: Vec<Scalar>,
        policy_pk: &PolicyPublicKey,
        revocation_info: Option<Vec<u8>>,
        srs: &Srs,
    ) -> (verdict: Result<(), ProtocolError>)
        ensures
            challenge@ != self.challenge@ <==> verdict == Err::<(), _>(
                ProtocolError::ChallengeMismatch,
            ),
            challenge@ == self.challenge@ && encodings(disclosed_attributes@) != encodings(
                self.disclosed@,
            ) ==> verdict == Err::<(), _>(ProtocolError::ProofVerificationFailed),
            verdict is Ok ==> challenge@ == self.challenge@ && encodings(disclosed_attributes@)
                == encodings(self.disclosed@),
            challenge@ == self.challenge@ ==> exists|key_authorized: bool, credential_shown: bool|
                #![trigger
                    call_ensures(
                        P::verify_key_anonymity,
                        (primitives, self, challenge, policy_pk, srs),
                        key_authorized,
                    ),
                    call_ensures(
                        P::verify_credential_show,
                        (primitives, self, challenge, &disclosed_attributes, &revocation_info, srs),
                        credential_shown,
                    ),
                ]
                {
                    &&& call_ensures(
                        P::verify_key_anonymity,
                        (primitives, self, challenge, policy_pk, srs),
                        key_authorized,
                    )
                    &&& call_ensures(
                        P::verify_credential_show,
                        (primitives, self, challenge, &disclosed_attributes, &revocation_info, srs),
                        credential_shown,
                    )
                    &&& verdict == spec_verdict(
                        true,
                        encodings(disclosed_attributes@) == encodings(self.disclosed@),
                        key_authorized,
                        credential_shown,
                    )
                },
            verdict matches Err(e) ==> e == ProtocolError::ChallengeMismatch || e
                == ProtocolError::ProofVerificationFailed,
    {
        let challenge_matches = challenge.equals(&self.challenge);
        if !challenge_matches {
            return verification_verdict(false, false, false, false);
        }
        let disclosure_matches = same_scalars(&disclosed_attributes, &self.disclosed);
        let key_authorized = primitives.verify_key_anonymity(self, challenge, policy_pk, srs);
        let credential_shown = primitives.verify_credential_show(
            self,
            challenge,
            &disclosed_attributes,
            &revocation_info,
            srs,
        );
        verification_verdict(challenge_matches, disclosure_matches, key_authorized, credential_shown)
    }
}

} // verus!
