//! Issuance: the exchange between a user and an issuer that ends in a
//! credential.
//!
//! The exchange moves through six phases in a fixed order. Each step either
//! reaches the next phase or ends the exchange with an error; a credential
//! exists only once every step has succeeded.

use crate::challenge::{derive_challenge, oracle_scalar};
use crate::error::ProtocolError;
use crate::keys::{IssuerPublicKey, IssuerSecretKey, Srs, UserPublicKey, UserSecretKey};
use crate::primitives::{
    spec_request_begun, spec_request_generated, spec_request_signed, Primitives,
};
use crate::scalar::{
    copy_bytes, copy_scalars, encodings, same_bytes, spec_encodes_scalar, Scalar,
};
use crate::transcript::{framable, lemma_frame_injective, segments, spec_frame};
use ark_std::rand::rngs::StdRng;
use vstd::prelude::*;

verus! {

/// An open signature request: the user's blindings, which stay with the user,
/// and the commitment to them, which enters the challenge.
#[derive(Debug)]
pub struct RequestContext {
    pub state: Vec<u8>,
    pub commitment: Vec<u8>,
}

/// What a user holds after issuance and shows from.
#[derive(Debug)]
pub struct Credential {
    pub request: Vec<u8>,
    pub opening: Vec<u8>,
    pub signature: Vec<u8>,
    pub attributes: Vec<Scalar>,
    pub issuer_key: IssuerPublicKey,
    pub generator: Vec<u8>,
}

/// How far an issuance has come.
#[derive(Clone, Copy, PartialEq, Eq, Structural, Debug)]
pub enum IssuancePhase {
    /// The user has opened a request context.
    Init,
    /// The challenge has been derived from the context's transcript.
    ChallengeComputed,
    /// The user has committed to the attributes and produced the request.
    RequestGenerated,
    /// The request has been checked and accepted.
    RequestVerified,
    /// The issuer has signed the request.
    Signed,
    /// The credential has been put together and found consistent.
    Assembled,
}

/// What happened in the step that was just taken.
#[derive(Clone, Copy, PartialEq, Eq, Structural, Debug)]
pub enum IssuanceEvent {
    ChallengeDerived,
    RequestProduced,
    RequestAccepted,
    SignatureProduced,
    CredentialConsistent,
    /// The step did not produce what it was taken for.
    StepFailed,
}

/// The event that takes `phase` to the next phase; the last phase waits for
/// nothing.
pub open spec fn spec_awaited(phase: IssuancePhase) -> Option<IssuanceEvent> {
    match phase {
        IssuancePhase::Init => Some(IssuanceEvent::ChallengeDerived),
        IssuancePhase::ChallengeComputed => Some(IssuanceEvent::RequestProduced),
        IssuancePhase::RequestGenerated => Some(IssuanceEvent::RequestAccepted),
        IssuancePhase::RequestVerified => Some(IssuanceEvent::SignatureProduced),
        IssuancePhase::Signed => Some(IssuanceEvent::CredentialConsistent),
        IssuancePhase::Assembled => None,
    }
}

/// The phase after `phase`; the last phase is its own successor.
pub open spec fn spec_successor(phase: IssuancePhase) -> IssuancePhase {
    match phase {
        IssuancePhase::Init => IssuancePhase::ChallengeComputed,
        IssuancePhase::ChallengeComputed => IssuancePhase::RequestGenerated,
        IssuancePhase::RequestGenerated => IssuancePhase::RequestVerified,
        IssuancePhase::RequestVerified => IssuancePhase::Signed,
        IssuancePhase::Signed => IssuancePhase::Assembled,
        IssuancePhase::Assembled => IssuancePhase::Assembled,
    }
}

/// The error that ends an issuance which goes wrong in `phase`: until the
/// request is accepted it is the request that failed, afterwards the
/// assembly.
pub open spec fn spec_failure(phase: IssuancePhase) -> ProtocolError {
    match phase {
        IssuancePhase::Init
        | IssuancePhase::ChallengeComputed
        | IssuancePhase::RequestGenerated => ProtocolError::RequestVerificationFailed,
        IssuancePhase::RequestVerified
        | IssuancePhase::Signed
        | IssuancePhase::Assembled => ProtocolError::CredentialAssemblyFailed,
    }
}

/// One step of an issuance: the awaited event reaches the next phase, any
/// other event ends the issuance.
pub open spec fn spec_issuance_step(phase: IssuancePhase, event: IssuanceEvent) -> Result<
    IssuancePhase,
    ProtocolError,
> {
    if spec_awaited(phase) == Some(event) {
        Ok(spec_successor(phase))
    } else {
        Err(spec_failure(phase))
    }
}

/// Where an issuance that starts in `phase` stands after `events`: the first
/// error, if a step fails, and else the phase reached.
pub open spec fn spec_issuance_run(phase: IssuancePhase, events: Seq<IssuanceEvent>) -> Result<
    IssuancePhase,
    ProtocolError,
>
    decreases events.len(),
{
    if events.len() == 0 {
        Ok(phase)
    } else {
        match spec_issuance_step(phase, events[0]) {
            Ok(next) => spec_issuance_run(next, events.skip(1)),
            Err(e) => Err(e),
        }
    }
}

/// The position of `phase` in the order of the phases.
pub open spec fn spec_rank(phase: IssuancePhase) -> int {
    match phase {
        IssuancePhase::Init => 0,
        IssuancePhase::ChallengeComputed => 1,
        IssuancePhase::RequestGenerated => 2,
        IssuancePhase::RequestVerified => 3,
        IssuancePhase::Signed => 4,
        IssuancePhase::Assembled => 5,
    }
}

/// The events of an issuance in which every step succeeds.
pub open spec fn spec_issuance_script() -> Seq<IssuanceEvent> {
    seq![
        IssuanceEvent::ChallengeDerived,
        IssuanceEvent::RequestProduced,
        IssuanceEvent::RequestAccepted,
        IssuanceEvent::SignatureProduced,
        IssuanceEvent::CredentialConsistent,
    ]
}

/// Takes one step of an issuance.
pub fn issuance_step(phase: IssuancePhase, event: IssuanceEvent) -> (next: Result<
    IssuancePhase,
    ProtocolError,
>)
    ensures
        next == spec_issuance_step(phase, event),
{
    match (phase, event) {
        (IssuancePhase::Init, IssuanceEvent::ChallengeDerived) => Ok(
            IssuancePhase::ChallengeComputed,
        ),
        (IssuancePhase::ChallengeComputed, IssuanceEvent::RequestProduced) => Ok(
            IssuancePhase::RequestGenerated,
        ),
        (IssuancePhase::RequestGenerated, IssuanceEvent::RequestAccepted) => Ok(
            IssuancePhase::RequestVerified,
        ),
        (IssuancePhase::RequestVerified, IssuanceEvent::SignatureProduced) => Ok(
            IssuancePhase::Signed,
        ),
        (IssuancePhase::Signed, IssuanceEvent::CredentialConsistent) => Ok(
            IssuancePhase::Assembled,
        ),
        (IssuancePhase::Init, _)
        | (IssuancePhase::ChallengeComputed, _)
        | (IssuancePhase::RequestGenerated, _) => Err(ProtocolError::RequestVerificationFailed),
        _ => Err(ProtocolError::CredentialAssemblyFailed),
    }
}

/// An issuance that starts in `from` stands in `to` after `events` exactly
/// when `events` are the successful steps between the two phases, in order.
pub proof fn lemma_issuance_run_between(
    from: IssuancePhase,
    to: IssuancePhase,
    events: Seq<IssuanceEvent>,
)
    ensures
        spec_issuance_run(from, events) == Ok::<IssuancePhase, ProtocolError>(to) <==> (spec_rank(
            from,
        ) <= spec_rank(to) && events == spec_issuance_script().subrange(
            spec_rank(from),
            spec_rank(to),
        )),
    decreases events.len(),
{
    let script = spec_issuance_script();
    if events.len() == 0 {
        if spec_rank(from) <= spec_rank(to) {
            assert(script.subrange(spec_rank(from), spec_rank(to)).len() == spec_rank(to)
                - spec_rank(from));
        }
        if from == to {
            assert(events =~= script.subrange(spec_rank(from), spec_rank(to)));
        }
    } else {
        let rest = events.skip(1);
        let next = spec_successor(from);
        lemma_issuance_run_between(next, to, rest);
        if spec_awaited(from) == Some(events[0]) {
            assert(spec_rank(next) == spec_rank(from) + 1);
            assert(script[spec_rank(from)] == events[0]);
            if spec_rank(next) <= spec_rank(to) && rest == script.subrange(
                spec_rank(next),
                spec_rank(to),
            ) {
                let between = script.subrange(spec_rank(from), spec_rank(to));
                assert(events.len() == rest.len() + 1);
                assert forall|i: int| 0 <= i < events.len() implies events[i] == between[i] by {
                    if i > 0 {
                        assert(events[i] == rest[i - 1]);
                    }
                }
                assert(events =~= between);
            }
            if spec_rank(from) <= spec_rank(to) && events == script.subrange(
                spec_rank(from),
                spec_rank(to),
            ) {
                assert(rest =~= script.subrange(spec_rank(next), spec_rank(to)));
            }
        } else {
            if spec_rank(from) <= spec_rank(to) && events == script.subrange(
                spec_rank(from),
                spec_rank(to),
            ) {
                assert(script[spec_rank(from)] == events[0]);
            }
        }
    }
}

/// An issuance ends in a credential exactly when its five steps all succeed,
/// in their order: nothing is assembled from a request that was not accepted
/// or not signed, and no step can be skipped, repeated or retried.
pub proof fn lemma_issuance_completes_only_in_order(events: Seq<IssuanceEvent>)
    ensures
        spec_issuance_run(IssuancePhase::Init, events) == Ok::<IssuancePhase, ProtocolError>(
            IssuancePhase::Assembled,
        ) <==> events == spec_issuance_script(),
{
    lemma_issuance_run_between(IssuancePhase::Init, IssuancePhase::Assembled, events);
    assert(spec_issuance_script().subrange(0, 5) =~= spec_issuance_script());
}

/// An issuance that has failed stays failed: whatever events follow, its
/// outcome is the first error.
pub proof fn lemma_issuance_failure_is_final(
    phase: IssuancePhase,
    events: Seq<IssuanceEvent>,
    later: Seq<IssuanceEvent>,
)
    requires
        spec_issuance_run(phase, events) is Err,
    ensures
        spec_issuance_run(phase, events + later) == spec_issuance_run(phase, events),
    decreases events.len(),
{
    if events.len() > 0 {
        assert((events + later)[0] == events[0]);
        assert((events + later).skip(1) =~= events.skip(1) + later);
        match spec_issuance_step(phase, events[0]) {
            Ok(next) => {
                lemma_issuance_failure_is_final(next, events.skip(1), later);
            },
            Err(_) => {},
        }
    }
}

/// The segments of an issuance transcript: the context's commitment, the
/// user's public key and the first generator. The attributes are no part of
/// it.
pub open spec fn spec_issuance_parts(commitment: Seq<u8>, user_key: Seq<u8>, generator: Seq<u8>) -> Seq<
    Seq<u8>,
> {
    seq![commitment, user_key, generator]
}

/// The challenge of the issuance with these segments: the oracle's scalar for
/// their transcript.
pub open spec fn spec_issuance_challenge(
    commitment: Seq<u8>,
    user_key: Seq<u8>,
    generator: Seq<u8>,
) -> Seq<u8> {
    oracle_scalar(spec_frame(spec_issuance_parts(commitment, user_key, generator)))
}

/// An issuance transcript determines the commitment, the user's key and the
/// generator it was made of: a challenge derived for one session or one user
/// is derived from another transcript than that of any other.
pub proof fn lemma_issuance_transcript_binds(
    commitment_a: Seq<u8>,
    user_key_a: Seq<u8>,
    generator_a: Seq<u8>,
    commitment_b: Seq<u8>,
    user_key_b: Seq<u8>,
    generator_b: Seq<u8>,
)
    requires
        framable(spec_issuance_parts(commitment_a, user_key_a, generator_a)),
        framable(spec_issuance_parts(commitment_b, user_key_b, generator_b)),
        spec_frame(spec_issuance_parts(commitment_a, user_key_a, generator_a)) == spec_frame(
            spec_issuance_parts(commitment_b, user_key_b, generator_b),
        ),
    ensures
        commitment_a == commitment_b,
        user_key_a == user_key_b,
        generator_a == generator_b,
{
    let a = spec_issuance_parts(commitment_a, user_key_a, generator_a);
    let b = spec_issuance_parts(commitment_b, user_key_b, generator_b);
    lemma_frame_injective(a, b);
    assert(a[0] == commitment_a && a[1] == user_key_a && a[2] == generator_a);
    assert(b[0] == commitment_b && b[1] == user_key_b && b[2] == generator_b);
}

/// The challenge of an issuance: the oracle's scalar for the transcript of
/// the request context, the user's public key and the generator.
pub fn issuance_challenge(context: &RequestContext, upk: &UserPublicKey, srs: &Srs) -> (challenge:
    Scalar)
    ensures
        challenge@ == spec_issuance_challenge(context.commitment@, upk.key@, srs.generator_g1@),
        spec_encodes_scalar(challenge@),
{
    let mut parts: Vec<Vec<u8>> = Vec::new();
    parts.push(copy_bytes(context.commitment.as_slice()));
    parts.push(copy_bytes(upk.key.as_slice()));
    parts.push(copy_bytes(srs.generator_g1.as_slice()));
    proof {
        assert(segments(parts@) =~= spec_issuance_parts(
            context.commitment@,
            upk.key@,
            srs.generator_g1@,
        ));
    }
    derive_challenge(&parts)
}

impl Credential {
    /// The credential fits the parameters: it was assembled over their first
    /// generator and holds no more attributes than they allow.
    pub open spec fn spec_well_formed(&self, srs: &Srs) -> bool {
        &&& self.generator@ == srs.generator_g1@
        &&& self.attributes@.len() <= srs.max_attributes
    }

    /// Whether the credential fits the parameters.
    pub fn is_well_formed(&self, srs: &Srs) -> (fits: bool)
        ensures
            fits == self.spec_well_formed(srs),
    {
        same_bytes(self.generator.as_slice(), srs.generator_g1.as_slice())
            && self.attributes.len() <= srs.max_attributes
    }
}

/// Puts a credential together from its parts. The parts fit when the
/// generator is the parameters' first generator and the attributes are no
/// more than the parameters allow; parts that do not fit are refused.
pub fn assemble_credential(
    request: Vec<u8>,
    opening: Vec<u8>,
    signature: Vec<u8>,
    attributes: Vec<Scalar>,
    issuer_key: IssuerPublicKey,
    generator: Vec<u8>,
    srs: &Srs,
) -> (assembled: Result<Credential, ProtocolError>)
    ensures
        assembled is Ok <==> (generator@ == srs.generator_g1@ && attributes@.len()
            <= srs.max_attributes),
        assembled matches Ok(credential) ==> credential.request == request && credential.opening
            == opening && credential.signature == signature && credential.attributes
            == attributes && credential.issuer_key == issuer_key && credential.generator
            == generator,
        assembled matches Err(e) ==> e == ProtocolError::CredentialAssemblyFailed,
{
    let credential = Credential { request, opening, signature, attributes, issuer_key, generator };
    if credential.is_well_formed(srs) {
        Ok(credential)
    } else {
        Err(ProtocolError::CredentialAssemblyFailed)
    }
}

/// The event that stands for the outcome of a step: the awaited one when the
/// step succeeded.
fn step_event(awaited: IssuanceEvent, succeeded: bool) -> (event: IssuanceEvent)
    ensures
        event == if succeeded {
            awaited
        } else {
            IssuanceEvent::StepFailed
        },
{
    if succeeded {
        awaited
    } else {
        IssuanceEvent::StepFailed
    }
}

/// The user's part of an issuance, as `primitives` can play it. A request
/// context is opened with audit disabled; the challenge is that of the
/// context's transcript; the primitives answer it with `produced`, a request
/// on `attributes` and its opening, or with nothing; and the check of a
/// request that was produced gives `accepted`. Where nothing was produced,
/// nothing is accepted.
pub open spec fn spec_request_checked<P: Primitives>(
    primitives: &P,
    attributes: &Vec<Scalar>,
    usk: &UserSecretKey,
    upk: &UserPublicKey,
    srs: &Srs,
    produced: Option<(Vec<u8>, Vec<u8>)>,
    accepted: bool,
) -> bool {
    exists|context: RequestContext, challenge: Scalar|
        #![trigger
            spec_request_generated(primitives, &context, attributes, usk, &challenge, srs, produced)
        ]
        {
            &&& spec_request_begun(primitives, usk, false, srs, context)
            &&& challenge@ == spec_issuance_challenge(
                context.commitment@,
                upk.key@,
                srs.generator_g1@,
            )
            &&& spec_request_generated(
                primitives,
                &context,
                attributes,
                usk,
                &challenge,
                srs,
                produced,
            )
            &&& match produced {
                Some(pair) => call_ensures(
                    P::verify_request,
                    (primitives, &pair.0, attributes, upk, &challenge, srs),
                    accepted,
                ),
                None => !accepted,
            }
        }
}

/// `credential` is put together from a request that was accepted, the
/// issuer's signature on it, the given attributes and issuer key, over the
/// parameters' generator; and the check of `primitives` on it gives
/// `consistent`.
pub open spec fn spec_credential_checked<P: Primitives>(
    primitives: &P,
    attributes: &Vec<Scalar>,
    isk: &IssuerSecretKey,
    ipk: &IssuerPublicKey,
    usk: &UserSecretKey,
    upk: &UserPublicKey,
    srs: &Srs,
    credential: &Credential,
    consistent: bool,
) -> bool {
    &&& spec_request_checked(
        primitives,
        attributes,
        usk,
        upk,
        srs,
        Some((credential.request, credential.opening)),
        true,
    )
    &&& spec_request_signed(
        primitives,
        &credential.request,
        isk,
        srs,
        Some(credential.signature),
    )
    &&& encodings(credential.attributes@) == encodings(attributes@)
    &&& credential.issuer_key.same_as(ipk)
    &&& credential.spec_well_formed(srs)
    &&& call_ensures(P::check_credential, (primitives, credential, srs), consistent)
}

/// Issues a credential on `attributes`: the user opens a request and derives
/// its challenge, commits to the attributes, the request is checked, the
/// issuer signs it, and the credential is assembled and checked.
///
/// More attributes than the parameters allow end the call with
/// `RequestVerificationFailed` before the primitives are asked for anything.
/// Else the primitives are asked step by step, each step with what the steps
/// before it gave, and the call ends at the first step that fails: with
/// `RequestVerificationFailed` when no request is produced or the request is
/// not accepted, with `CredentialAssemblyFailed` when the issuer does not
/// sign or the assembled credential is found inconsistent. A credential is
/// returned exactly when every step succeeded; it holds the request, the
/// opening and the signature that the primitives gave, and the attributes
/// and the issuer's key as they were given.
pub fn create_credential<P: Primitives>(
    primitives: &P,
    rng: &mut StdRng,
    attributes: Vec<Scalar>,
    isk: &IssuerSecretKey,
    ipk: &IssuerPublicKey,
    usk: &UserSecretKey,
    upk: &UserPublicKey,
    srs: &Srs,
) -> (issued: Result<Credential, ProtocolError>)
    ensures
        attributes@.len() > srs.max_attributes ==> issued == Err::<Credential, _>(
            ProtocolError::RequestVerificationFailed,
        ) && *final(rng) == *old(rng),
        issued matches Ok(credential) ==> spec_credential_checked(
            primitives,
            &attributes,
            isk,
            ipk,
            usk,
            upk,
            srs,
            &credential,
            true,
        ),
        issued matches Err(e) ==> e == ProtocolError::RequestVerificationFailed || e
            == ProtocolError::CredentialAssemblyFailed,
        issued == Err::<Credential, _>(ProtocolError::RequestVerificationFailed) ==> {
            ||| attributes@.len() > srs.max_attributes
            ||| spec_request_checked(primitives, &attributes, usk, upk, srs, None, false)
            ||| exists|request: Vec<u8>, opening: Vec<u8>| #[trigger]
                spec_request_checked(
                    primitives,
                    &attributes,
                    usk,
                    upk,
                    srs,
                    Some((request, opening)),
                    false,
                )
        },
        issued == Err::<Credential, _>(ProtocolError::CredentialAssemblyFailed) ==> {
            ||| exists|request: Vec<u8>, opening: Vec<u8>|
                {
                    &&& #[trigger] spec_request_checked(
                        primitives,
                        &attributes,
                        usk,
                        upk,
                        srs,
                        Some((request, opening)),
                        true,
                    )
                    &&& spec_request_signed(primitives, &request, isk, srs, None)
                }
            ||| exists|credential: Credential| #[trigger]
                spec_credential_checked(
                    primitives,
                    &attributes,
                    isk,
                    ipk,
                    usk,
                    upk,
                    srs,
                    &credential,
                    false,
                )
        },
{
    if attributes.len() > srs.max_attributes {
        return Err(ProtocolError::RequestVerificationFailed);
    }
    let phase = IssuancePhase::Init;

    let context = primitives.begin_request(rng, usk, false, srs);
    proof {
        assert(spec_request_begun(primitives, usk, false, srs, context));
    }
    let challenge = issuance_challenge(&context, upk, srs);
    let phase = match issuance_step(phase, IssuanceEvent::ChallengeDerived) {
        Ok(next) => next,
        Err(e) => { return Err(e); },
    };

    let produced = primitives.generate_request(rng, &context, &attributes, usk, &challenge, srs);
    let ghost made = produced;
    proof {
        assert(spec_request_generated(primitives, &context, &attributes, usk, &challenge, srs, made));
    }
    let phase = match issuance_step(
        phase,
        step_event(IssuanceEvent::RequestProduced, produced.is_some()),
    ) {
        Ok(next) => next,
        Err(e) => {
            proof {
                assert(made is None);
                assert(spec_request_checked(primitives, &attributes, usk, upk, srs, made, false));
            }
            return Err(e);
        },
    };
    let (request, opening) = produced.unwrap();

    let accepted = primitives.verify_request(&request, &attributes, upk, &challenge, srs);
    proof {
        assert(made == Some((request, opening)));
        assert(spec_request_checked(primitives, &attributes, usk, upk, srs, made, accepted));
    }
    let phase = match issuance_step(phase, step_event(IssuanceEvent::RequestAccepted, accepted)) {
        Ok(next) => next,
        Err(e) => { return Err(e); },
    };

    let signed = primitives.sign_request(rng, &request, isk, srs);
    proof {
        assert(spec_request_signed(primitives, &request, isk, srs, signed));
    }
    let phase = match issuance_step(
        phase,
        step_event(IssuanceEvent::SignatureProduced, signed.is_some()),
    ) {
        Ok(next) => next,
        Err(e) => { return Err(e); },
    };
    let signature = signed.unwrap();

    let held = copy_scalars(&attributes);
    let credential = match assemble_credential(
        request,
        opening,
        signature,
        held,
        ipk.clone(),
        copy_bytes(srs.generator_g1.as_slice()),
        srs,
    ) {
        Ok(credential) => credential,
        Err(e) => { return Err(e); },
    };
    let consistent = primitives.check_credential(&credential, srs);
    proof {
        assert(spec_credential_checked(
            primitives,
            &attributes,
            isk,
            ipk,
            usk,
            upk,
            srs,
            &credential,
            consistent,
        ));
    }
    match issuance_step(phase, step_event(IssuanceEvent::CredentialConsistent, consistent)) {
        Ok(_) => Ok(credential),
        Err(e) => Err(e),
    }
}

} // verus!
