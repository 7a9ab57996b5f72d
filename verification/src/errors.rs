//! The typed outcomes of verification. A rejected proof is always the
//! undifferentiated [`ProofVerifyError::VerificationFailure`], so a cheating
//! prover learns nothing about which internal check failed.

use vstd::prelude::*;

verus! {

#[derive(Clone, Copy, Debug, PartialEq, Eq, Structural)]
pub enum ProofVerifyError {
    /// A dimension mismatch, an empty constraint set, or a generator-count
    /// shortfall, found eagerly at stage entry.
    MalformedInput,
    /// A compressed point that does not decode to a curve point; only
    /// possible on the verify path, where proof bytes are untrusted.
    DecodingError,
    /// A proof whose shape is impossible: the claimed round count is out of
    /// range or does not match the statement's length.
    InternalError,
    /// The single "proof rejected" outcome for a failed final equation.
    VerificationFailure,
}

} // verus!
