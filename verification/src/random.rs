//! The prover's random tape: a per-session CSPRNG source, domain-separated
//! by label and independent of the proof transcript, as the hiding of the
//! commitments requires.

use crate::curve25519::group_order;
use crate::curve25519::scalar_val;
use crate::transcript::ProofTranscript;
use curve25519_dalek::scalar::Scalar;
use rand::RngCore;
use vstd::prelude::*;

verus! {

/// Relies on `rand::rngs::OsRng::fill_bytes`: 32 bytes from the operating
/// system's secure randomness source. Nothing is promised of their value.
#[verifier::external_body]
fn os_random_bytes32() -> (r: [u8; 32]) {
    let mut b = [0u8; 32];
    rand::rngs::OsRng.fill_bytes(&mut b);
    b
}

/// A tape of random scalars, drawn fresh for one proving session. It is a
/// keyed transcript of its own, seeded from the system's randomness:
/// domain-separated by label and independent of the proof transcript.
pub struct RandomTape {
    tape: ProofTranscript,
}

impl RandomTape {
    pub fn new(name: &'static [u8]) -> (r: RandomTape)
        requires
            name@.len() <= u32::MAX,
    {
        let seed = os_random_bytes32();
        let mut tape = ProofTranscript::new(name);
        tape.append_bytes(&crate::transcript::INIT_RANDOMNESS_LABEL, seed.as_slice());
        RandomTape { tape }
    }

    pub fn random_scalar(&mut self, label: &'static [u8]) -> (r: Scalar)
        ensures
            scalar_val(r) < group_order(),
    {
        let ghost pre = self.tape@;
        let r = self.tape.challenge_scalar(label);
        proof {
            crate::math::lemma_mod_below_order(
                crate::curve25519::le_val(crate::transcript::challenge_bytes_of(pre, label@)),
            );
        }
        r
    }

    pub fn random_vector(&mut self, label: &'static [u8], len: usize) -> (r: Vec<Scalar>)
        ensures
            r@.len() == len,
            forall|i: int| 0 <= i < len ==> scalar_val(#[trigger] r@[i]) < group_order(),
    {
        let mut r: Vec<Scalar> = Vec::new();
        let mut i: usize = 0;
        while i < len
            invariant
                i <= len,
                r@.len() == i,
                forall|j: int| 0 <= j < i ==> scalar_val(#[trigger] r@[j]) < group_order(),
            decreases len - i,
        {
            r.push(self.random_scalar(label));
            i += 1;
        }
        r
    }
}

} // verus!
