//! Transcripts and the challenges derived from them.

use ark_bls12_381::Fr;
use ark_serialize::CanonicalSerialize;
use blake2::Blake2b512;
use protego::challenge::{compute_challenge, derive_challenge};
use protego::issuance::{issuance_challenge, RequestContext};
use protego::keys::{Srs, UserPublicKey};
use protego::scalar::{copy_bytes, copy_scalars, same_bytes, same_scalars, Scalar};
use protego::show::show_challenge;
use protego::transcript::{append_bytes, append_segment, frame};
use schnorr_pok::compute_random_oracle_challenge;

fn oracle(bytes: &[u8]) -> Vec<u8> {
    let scalar = compute_random_oracle_challenge::<Fr, Blake2b512>(bytes);
    let mut out = Vec::new();
    scalar.serialize_compressed(&mut out).unwrap();
    out
}

fn srs() -> Srs {
    Srs { max_attributes: 10, generator_g1: vec![0xaa, 0xbb], generator_g2: vec![0xcc] }
}

#[test]
fn frame_of_nothing_is_empty() {
    assert_eq!(frame(&vec![]), Vec::<u8>::new());
}

#[test]
fn frame_puts_each_length_before_its_segment() {
    let transcript = frame(&vec![vec![1u8, 2], vec![], vec![3u8]]);
    let expected: Vec<u8> = vec![
        2, 0, 0, 0, 0, 0, 0, 0, 1, 2, // two bytes
        0, 0, 0, 0, 0, 0, 0, 0, // none
        1, 0, 0, 0, 0, 0, 0, 0, 3, // one byte
    ];
    assert_eq!(transcript, expected);
}

#[test]
fn frame_writes_the_length_little_endian() {
    let transcript = frame(&vec![vec![7u8; 258]]);
    assert_eq!(transcript.len(), 8 + 258);
    assert_eq!(&transcript[..8], &[2, 1, 0, 0, 0, 0, 0, 0]);
    assert!(transcript[8..].iter().all(|b| *b == 7));
}

#[test]
fn frame_tells_the_segment_boundaries_apart() {
    let joined = frame(&vec![vec![1u8, 2, 3]]);
    let split = frame(&vec![vec![1u8, 2], vec![3u8]]);
    let other = frame(&vec![vec![1u8], vec![2u8, 3]]);
    let padded = frame(&vec![vec![1u8, 2, 3], vec![]]);
    assert_ne!(joined, split);
    assert_ne!(split, other);
    assert_ne!(joined, padded);
    assert_eq!(split, frame(&vec![vec![1u8, 2], vec![3u8]]));
}

#[test]
fn append_segment_extends_what_is_there() {
    let mut out = vec![9u8];
    append_bytes(&mut out, &[8, 7]);
    assert_eq!(out, vec![9, 8, 7]);
    append_segment(&mut out, &[5, 6]);
    assert_eq!(out, vec![9, 8, 7, 2, 0, 0, 0, 0, 0, 0, 0, 5, 6]);
    append_bytes(&mut out, &[]);
    assert_eq!(out.len(), 13);
}

#[test]
fn copies_and_comparisons_of_bytes() {
    assert_eq!(copy_bytes(&[1, 2, 3]), vec![1, 2, 3]);
    assert_eq!(copy_bytes(&[]), Vec::<u8>::new());
    assert!(same_bytes(&[1, 2], &[1, 2]));
    assert!(same_bytes(&[], &[]));
    assert!(!same_bytes(&[1, 2], &[1, 3]));
    assert!(!same_bytes(&[1, 2], &[1, 2, 0]));
}

#[test]
fn copies_and_comparisons_of_scalars() {
    let a = Scalar::from_bytes(vec![1, 2]);
    let b = Scalar::from_bytes(vec![3]);
    assert!(a.equals(&a.clone()));
    assert!(!a.equals(&b));
    let list = vec![a.clone(), b.clone()];
    let copy = copy_scalars(&list);
    assert_eq!(copy.len(), 2);
    assert!(same_scalars(&list, &copy));
    assert!(!same_scalars(&list, &vec![b.clone(), a.clone()]));
    assert!(!same_scalars(&list, &vec![a.clone()]));
    assert!(same_scalars(&vec![], &vec![]));
}

#[test]
fn challenge_is_the_oracle_scalar_of_the_bytes() {
    let expected: Vec<u8> = vec![
        207, 148, 246, 214, 5, 101, 126, 144, 197, 67, 176, 201, 25, 7, 12, 218, 175, 114, 9, 197,
        225, 234, 88, 172, 184, 243, 86, 143, 162, 17, 66, 104,
    ];
    assert_eq!(compute_challenge(&[1, 2, 3]).bytes, expected);
    assert_eq!(oracle(&[1, 2, 3]), expected);
}

#[test]
fn challenge_of_no_bytes_is_the_head_of_their_digest() {
    let expected: Vec<u8> = vec![
        0x78, 0x6a, 0x02, 0xf7, 0x42, 0x01, 0x59, 0x03, 0xc6, 0xc6, 0xfd, 0x85, 0x25, 0x52, 0xd2,
        0x72, 0x91, 0x2f, 0x47, 0x40, 0xe1, 0x58, 0x47, 0x61, 0x8a, 0x86, 0xe2, 0x17, 0xf7, 0x1f,
        0x54, 0x19,
    ];
    assert_eq!(compute_challenge(&[]).bytes, expected);
}

#[test]
fn challenge_derivation_is_deterministic() {
    let transcript = frame(&vec![vec![5u8; 40], vec![1, 2, 3]]);
    let first = compute_challenge(&transcript);
    let second = compute_challenge(&transcript);
    assert!(first.equals(&second));
    assert_eq!(first.bytes.len(), 32);
    assert!(!first.equals(&compute_challenge(&frame(&vec![vec![5u8; 40], vec![1, 2, 4]]))));
}

#[test]
fn derived_challenge_hashes_the_framed_segments() {
    let parts = vec![vec![1u8, 2], vec![], vec![3u8]];
    let expected: Vec<u8> = vec![
        30, 10, 78, 245, 241, 118, 25, 18, 154, 64, 176, 161, 114, 160, 245, 184, 137, 115, 226,
        114, 178, 122, 196, 45, 203, 79, 35, 193, 34, 72, 186, 115,
    ];
    assert_eq!(derive_challenge(&parts).bytes, expected);
    assert_eq!(oracle(&frame(&parts)), expected);
}

#[test]
fn issuance_challenge_covers_context_user_key_and_generator() {
    let context = RequestContext { state: vec![9, 9, 9], commitment: vec![1, 2, 3] };
    let upk = UserPublicKey { key: vec![4, 5], supports_revocation: false };
    let challenge = issuance_challenge(&context, &upk, &srs());
    let transcript = frame(&vec![vec![1u8, 2, 3], vec![4u8, 5], vec![0xaa, 0xbb]]);
    assert_eq!(challenge.bytes, oracle(&transcript));

    let other_state = RequestContext { state: vec![0], commitment: vec![1, 2, 3] };
    assert!(issuance_challenge(&other_state, &upk, &srs()).equals(&challenge));
    let other_user = UserPublicKey { key: vec![4, 6], supports_revocation: false };
    assert!(!issuance_challenge(&context, &other_user, &srs()).equals(&challenge));
}

#[test]
fn show_challenge_covers_commitment_generator_nonce_and_disclosure() {
    let disclosed = vec![Scalar::from_bytes(vec![7u8; 32]), Scalar::from_bytes(vec![8u8; 32])];
    let challenge = show_challenge(&vec![1u8, 2], &disclosed, &srs(), &[1, 2, 3]);
    let transcript = frame(&vec![
        vec![1u8, 2],
        vec![0xaa, 0xbb],
        vec![1u8, 2, 3],
        vec![7u8; 32],
        vec![8u8; 32],
    ]);
    assert_eq!(challenge.bytes, oracle(&transcript));

    let other_nonce = show_challenge(&vec![1u8, 2], &disclosed, &srs(), &[1, 2]);
    assert!(!other_nonce.equals(&challenge));
    let fewer = vec![Scalar::from_bytes(vec![7u8; 32])];
    assert!(!show_challenge(&vec![1u8, 2], &fewer, &srs(), &[1, 2, 3]).equals(&challenge));
    let swapped = vec![Scalar::from_bytes(vec![8u8; 32]), Scalar::from_bytes(vec![7u8; 32])];
    assert!(!show_challenge(&vec![1u8, 2], &swapped, &srs(), &[1, 2, 3]).equals(&challenge));
    let none: Vec<Scalar> = vec![];
    let bare = show_challenge(&vec![], &none, &srs(), &[]);
    assert_eq!(bare.bytes, oracle(&frame(&vec![vec![], vec![0xaa, 0xbb], vec![]])));
}

#[test]
fn challenges_are_encodings_below_the_modulus() {
    let modulus: [u8; 32] = [
        0x73, 0xed, 0xa7, 0x53, 0x29, 0x9d, 0x7d, 0x48, 0x33, 0x39, 0xd8, 0x08, 0x09, 0xa1, 0xd8,
        0x05, 0x53, 0xbd, 0xa4, 0x02, 0xff, 0xfe, 0x5b, 0xfe, 0xff, 0xff, 0xff, 0xff, 0x00, 0x00,
        0x00, 0x01,
    ];
    for seed in 0..200u8 {
        let challenge = compute_challenge(&[seed, 1, 2, 3]);
        assert_eq!(challenge.bytes.len(), 32);
        let most_significant_first: Vec<u8> = challenge.bytes.iter().rev().cloned().collect();
        assert!(most_significant_first.as_slice() < modulus.as_slice());
        let derived = derive_challenge(&vec![vec![seed], vec![1, 2, 3]]);
        assert_eq!(derived.bytes.len(), 32);
    }
}

