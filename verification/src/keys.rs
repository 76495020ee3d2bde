//! Public parameters and the key pairs of the three roles.
//!
//! Key material is held as the bytes of its encoding; what the protocol
//! decides on (capability flags, the number of key components, the policy
//! key's arity, the bound on attributes) is held in the clear beside it.

use crate::scalar::copy_bytes;
use crate::transcript::segments;
use vstd::prelude::*;

verus! {

/// The number of issuer-key components a policy key covers.
pub const POLICY_ARITY: usize = 3;

/// The structured reference string: the two group generators and the largest
/// number of attributes a commitment can hold. It is made once and only read.
#[derive(Debug)]
pub struct Srs {
    pub max_attributes: usize,
    pub generator_g1: Vec<u8>,
    pub generator_g2: Vec<u8>,
}

/// An issuer's signing key with the capabilities it was made for.
#[derive(Debug)]
pub struct IssuerSecretKey {
    pub key: Vec<u8>,
    pub supports_revocation: bool,
    pub supports_audit: bool,
}

/// An issuer's public key: its components in order, and its capabilities.
#[derive(Debug)]
pub struct IssuerPublicKey {
    pub public_key: Vec<Vec<u8>>,
    pub supports_revocation: bool,
    pub supports_audit: bool,
}

/// The verifier's policy signing key and the number of components it covers.
#[derive(Debug)]
pub struct PolicySecretKey {
    pub key: Vec<u8>,
    pub arity: usize,
}

/// The verifier's policy public key.
#[derive(Debug)]
pub struct PolicyPublicKey {
    pub key: Vec<u8>,
    pub arity: usize,
}

/// A user's secret key.
#[derive(Debug)]
pub struct UserSecretKey {
    pub key: Vec<u8>,
    pub supports_revocation: bool,
}

/// A user's public key; the revocation flag is fixed when the key is made.
#[derive(Debug)]
pub struct UserPublicKey {
    pub key: Vec<u8>,
    pub supports_revocation: bool,
}

/// A copy of the byte strings in `parts`.
pub fn copy_segments(parts: &Vec<Vec<u8>>) -> (copy: Vec<Vec<u8>>)
    ensures
        segments(copy@) == segments(parts@),
{
    let mut copy: Vec<Vec<u8>> = Vec::new();
    let mut i: usize = 0;
    while i < parts.len()
        invariant
            i <= parts.len(),
            copy.len() == i,
            forall|j: int| 0 <= j < i ==> (#[trigger] copy@[j])@ == parts@[j]@,
        decreases parts.len() - i,
    {
        copy.push(copy_bytes(parts[i].as_slice()));
        i += 1;
    }
    proof {
        assert(segments(copy@) =~= segments(parts@));
    }
    copy
}

impl IssuerPublicKey {
    /// The number of components of the key.
    pub fn size(&self) -> (n: usize)
        ensures
            n == self.public_key@.len(),
    {
        self.public_key.len()
    }

    /// Whether `other` is the same key with the same capabilities.
    pub open spec fn same_as(&self, other: &IssuerPublicKey) -> bool {
        &&& segments(self.public_key@) == segments(other.public_key@)
        &&& self.supports_revocation == other.supports_revocation
        &&& self.supports_audit == other.supports_audit
    }
}

impl Clone for IssuerPublicKey {
    fn clone(&self) -> (copy: IssuerPublicKey)
        ensures
            copy.same_as(self),
    {
        IssuerPublicKey {
            public_key: copy_segments(&self.public_key),
            supports_revocation: self.supports_revocation,
            supports_audit: self.supports_audit,
        }
    }
}

} // verus!
