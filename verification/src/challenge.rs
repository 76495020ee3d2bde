//! Fiat-Shamir challenges and fresh scalars.
//!
//! A challenge is the scalar that the random oracle assigns to a transcript.
//! Prover and verifier derive it independently from their own copies of the
//! transcript, so it is a function of the transcript bytes and nothing else.

use crate::scalar::{spec_encodes_scalar, Scalar};
use crate::transcript::{frame, segments, spec_frame};
use vstd::prelude::*;

verus! {

/// The generator that every call needing randomness draws from. The caller
/// owns it and hands it in; the library keeps no generator of its own.
#[verifier::external_type_specification]
#[verifier::external_body]
pub struct ExStdRng(ark_std::rand::rngs::StdRng);

/// The canonical encoding of the scalar that the random oracle assigns to
/// `transcript`.
pub uninterp spec fn oracle_scalar(transcript: Seq<u8>) -> Seq<u8>;

/// Calls `schnorr_pok::compute_random_oracle_challenge` for the scalar field
/// of BLS12-381 with Blake2b-512 and returns the compressed encoding of the
/// scalar. The outside function hashes its input, and on a digest that is no
/// field element hashes the input again with a counter appended, so its
/// result depends on the bytes alone; the contract gives that result its name.
/// As the compressed encoding of a field element, the result is the integer
/// below the modulus that stands for the element, written in thirty-two
/// bytes, least significant byte first.
#[verifier::external_body]
fn hash_to_scalar(transcript: &[u8]) -> (encoding: Vec<u8>)
    ensures
        encoding@ == oracle_scalar(transcript@),
        spec_encodes_scalar(encoding@),
{
    let scalar = schnorr_pok::compute_random_oracle_challenge::<
        <ark_bls12_381::Bls12_381 as ark_ec::pairing::Pairing>::ScalarField,
        blake2::Blake2b512,
    >(transcript);
    let mut encoding = Vec::new();
    ark_serialize::CanonicalSerialize::serialize_compressed(&scalar, &mut encoding).unwrap();
    encoding
}

/// Draws a scalar with `ark_std::UniformRand::rand` from `rng` and returns
/// its compressed encoding. Which scalar is drawn depends on the generator
/// and is not claimed. What is claimed holds of every field element: its
/// compressed encoding is the integer below the modulus that stands for it,
/// written in thirty-two bytes, least significant byte first.
#[verifier::external_body]
fn draw_scalar(rng: &mut ark_std::rand::rngs::StdRng) -> (encoding: Vec<u8>)
    ensures
        spec_encodes_scalar(encoding@),
{
    let scalar = <<ark_bls12_381::Bls12_381 as ark_ec::pairing::Pairing>::ScalarField as ark_std::UniformRand>::rand(rng);
    let mut encoding = Vec::new();
    ark_serialize::CanonicalSerialize::serialize_compressed(&scalar, &mut encoding).unwrap();
    encoding
}

/// The challenge that belongs to the transcript bytes `transcript`: hashing
/// the same bytes again gives the same scalar.
pub fn compute_challenge(transcript: &[u8]) -> (challenge: Scalar)
    ensures
        challenge@ == oracle_scalar(transcript@),
        spec_encodes_scalar(challenge@),
{
    Scalar::from_bytes(hash_to_scalar(transcript))
}

/// The challenge bound to every segment of `parts`: the oracle's scalar for
/// their length-framed transcript.
pub fn derive_challenge(parts: &Vec<Vec<u8>>) -> (challenge: Scalar)
    ensures
        challenge@ == oracle_scalar(spec_frame(segments(parts@))),
        spec_encodes_scalar(challenge@),
{
    let transcript = frame(parts);
    compute_challenge(transcript.as_slice())
}

/// A fresh scalar drawn from `rng`: whichever element the generator gives,
/// the result is the encoding of a field element.
pub fn random_scalar(rng: &mut ark_std::rand::rngs::StdRng) -> (scalar: Scalar)
    ensures
        spec_encodes_scalar(scalar@),
{
    Scalar::from_bytes(draw_scalar(rng))
}

} // verus!
