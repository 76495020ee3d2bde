//! The ways a protocol call can end without a result.

use vstd::prelude::*;

verus! {

/// Why a protocol call was abandoned. Every error ends the call in which it
/// occurs; nothing is retried and nothing partial is handed out.
#[derive(Clone, Copy, PartialEq, Eq, Structural, Debug)]
pub enum ProtocolError {
    /// The primitives could not produce a key pair.
    KeyGenerationFailed,
    /// A key has more components than the policy key covers.
    PolicyArityError,
    /// A signature request could not be produced or did not verify.
    RequestVerificationFailed,
    /// The parts of a credential do not fit together.
    CredentialAssemblyFailed,
    /// The credential or the disclosure asked of it cannot be shown.
    InvalidDisclosureRequest,
    /// The verifier's challenge is not the one the proof was made for.
    ChallengeMismatch,
    /// A show proof did not verify.
    ProofVerificationFailed,
}

} // verus!
