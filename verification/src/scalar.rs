//! Scalars of the pairing group's field, held by their canonical encoding.

use crate::transcript::append_bytes;
use vstd::prelude::*;

verus! {

/// An element of the scalar field, as the bytes of its compressed encoding.
/// Two scalars are the same element exactly when their bytes are equal.
#[derive(Debug)]
pub struct Scalar {
    pub bytes: Vec<u8>,
}

impl View for Scalar {
    type V = Seq<u8>;

    open spec fn view(&self) -> Seq<u8> {
        self.bytes@
    }
}

/// The number of bytes in the encoding of a scalar.
pub const SCALAR_BYTES: usize = 32;

/// The order of the scalar field of BLS12-381, the prime
/// 52435875175126190479447740508185965837690552500527637822603658699938581184513,
/// written in three groups of decimal digits.
pub open spec fn spec_scalar_modulus() -> nat {
    (5243587517512619047944774 * 100000000000000000000000000nat + 5081859658376905525005276) * 100000000000000000000000000nat
        + 37822603658699938581184513
}

/// The number that `bytes` spell, least significant byte first.
pub open spec fn spec_le_value(bytes: Seq<u8>) -> nat
    decreases bytes.len(),
{
    if bytes.len() == 0 {
        0
    } else {
        bytes[0] as nat + 256 * spec_le_value(bytes.skip(1))
    }
}

/// Whether `bytes` are the encoding of a field element: thirty-two bytes that
/// spell, least significant byte first, a number below the modulus.
pub open spec fn spec_encodes_scalar(bytes: Seq<u8>) -> bool {
    bytes.len() == SCALAR_BYTES && spec_le_value(bytes) < spec_scalar_modulus()
}

/// The encodings of the scalars in `scalars`, in order.
pub open spec fn encodings(scalars: Seq<Scalar>) -> Seq<Seq<u8>> {
    Seq::new(scalars.len(), |i: int| scalars[i]@)
}

/// A copy of `bytes`.
pub fn copy_bytes(bytes: &[u8]) -> (copy: Vec<u8>)
    ensures
        copy@ == bytes@,
{
    let mut copy: Vec<u8> = Vec::new();
    append_bytes(&mut copy, bytes);
    proof {
        assert(copy@ =~= bytes@);
    }
    copy
}

/// Whether `a` and `b` hold the same bytes.
pub fn same_bytes(a: &[u8], b: &[u8]) -> (same: bool)
    ensures
        same == (a@ == b@),
{
    if a.len() != b.len() {
        return false;
    }
    let mut i: usize = 0;
    while i < a.len()
        invariant
            a.len() == b.len(),
            i <= a.len(),
            a@.subrange(0, i as int) == b@.subrange(0, i as int),
        decreases a.len() - i,
    {
        if a[i] != b[i] {
            return false;
        }
        i += 1;
        proof {
            assert(a@.subrange(0, i as int) =~= a@.subrange(0, i - 1).push(a@[i - 1]));
            assert(b@.subrange(0, i as int) =~= b@.subrange(0, i - 1).push(b@[i - 1]));
        }
    }
    proof {
        assert(a@ =~= a@.subrange(0, a@.len() as int));
        assert(b@ =~= b@.subrange(0, b@.len() as int));
    }
    true
}

impl Scalar {
    /// The scalar with the encoding `bytes`.
    pub fn from_bytes(bytes: Vec<u8>) -> (scalar: Scalar)
        ensures
            scalar@ == bytes@,
    {
        Scalar { bytes }
    }

    /// Whether `self` and `other` are the same field element.
    pub fn equals(&self, other: &Scalar) -> (same: bool)
        ensures
            same == (self@ == other@),
    {
        same_bytes(self.bytes.as_slice(), other.bytes.as_slice())
    }
}

impl Clone for Scalar {
    fn clone(&self) -> (copy: Scalar)
        ensures
            copy@ == self@,
    {
        Scalar { bytes: copy_bytes(self.bytes.as_slice()) }
    }
}

/// A copy of `scalars`.
pub fn copy_scalars(scalars: &Vec<Scalar>) -> (copy: Vec<Scalar>)
    ensures
        copy@.len() == scalars@.len(),
        encodings(copy@) == encodings(scalars@),
{
    let mut copy: Vec<Scalar> = Vec::new();
    let mut i: usize = 0;
    while i < scalars.len()
        invariant
            i <= scalars.len(),
            copy.len() == i,
            forall|j: int| 0 <= j < i ==> (#[trigger] copy@[j])@ == scalars@[j]@,
        decreases scalars.len() - i,
    {
        copy.push(scalars[i].clone());
        i += 1;
    }
    proof {
        assert(encodings(copy@) =~= encodings(scalars@));
    }
    copy
}

/// Whether `a` and `b` hold the same scalars in the same order.
pub fn same_scalars(a: &Vec<Scalar>, b: &Vec<Scalar>) -> (same: bool)
    ensures
        same == (encodings(a@) == encodings(b@)),
{
    if a.len() != b.len() {
        proof {
            assert(encodings(a@).len() != encodings(b@).len());
        }
        return false;
    }
    let mut i: usize = 0;
    while i < a.len()
        invariant
            a.len() == b.len(),
            i <= a.len(),
            forall|j: int| 0 <= j < i ==> (#[trigger] a@[j])@ == b@[j]@,
        decreases a.len() - i,
    {
        if !a[i].equals(&b[i]) {
            proof {
                assert(encodings(a@)[i as int] != encodings(b@)[i as int]);
            }
            return false;
        }
        i += 1;
    }
    proof {
        assert(encodings(a@) =~= encodings(b@));
    }
    true
}

} // verus!
