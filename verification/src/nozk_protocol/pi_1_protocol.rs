//! The domain-extension stage: folds the commitment-opening check and the
//! linear-evaluation check into one statement over the extended vector
//! `z_hat = z ++ [phi]` against the extended basis `G_hat = G ++ [h]`.
//!
//! Only `(P_hat, y_hat)` travel; the rescaled form `L_tilde = c_1 * L_hat`
//! and the extended basis are recomputed by the verifier.

use crate::commitments::MultiCommitGens;
use crate::curve25519::copy_point_vec;
use crate::curve25519::copy_scalar_vec;
use crate::curve25519::encs;
use crate::curve25519::le_bytes;
use crate::curve25519::pt_compress;
use crate::curve25519::pt_msm;
use crate::curve25519::pt_msm_enc;
use crate::curve25519::pt_valid;
use crate::curve25519::sc_mul;
use crate::curve25519::sc_zero;
use crate::curve25519::scalar_val;
use crate::curve25519::vals;
use crate::curve25519::CompressedGroup;
use crate::scalar_math::compute_linearform;
use crate::scalar_math::dot;
use crate::transcript::challenge_val;
use crate::transcript::t_op;
use crate::transcript::ProofTranscript;
use crate::transcript::C_1_LABEL;
use crate::transcript::PI_1_NAME;
use crate::transcript::PROTOCOL_NAME_LABEL;
use crate::transcript::P_HAT_LABEL;
use crate::transcript::Y_HAT_LABEL;
use curve25519_dalek::ristretto::RistrettoPoint;
use curve25519_dalek::scalar::Scalar;
use vstd::prelude::*;

verus! {

/// The domain-extension stage sends no fragment of its own: its record is
/// an empty marker, and `(P_hat, y_hat)` go into the public outputs.
pub struct Pi_1_Proof {}

/// The transcript operations of this stage up to (excluding) its
/// challenge: the protocol name, then `P_hat` and `y_hat`.
pub open spec fn pi1_ops_before_challenge(p_hat_enc: Seq<u8>, y_hat: nat) -> Seq<Seq<u8>> {
    t_op(0, PROTOCOL_NAME_LABEL@, PI_1_NAME@) + t_op(0, P_HAT_LABEL@, p_hat_enc) + t_op(
        0,
        Y_HAT_LABEL@,
        le_bytes(y_hat, 32),
    )
}

/// The domain-extension challenge `c_1`, a function of the transcript
/// prefix and the appended `(P_hat, y_hat)` alone.
pub open spec fn pi1_challenge(log0: Seq<Seq<u8>>, p_hat_enc: Seq<u8>, y_hat: nat) -> nat {
    challenge_val(log0 + pi1_ops_before_challenge(p_hat_enc, y_hat), C_1_LABEL@)
}

/// The whole stage's transcript operations, challenge included.
pub open spec fn pi1_ops(p_hat_enc: Seq<u8>, y_hat: nat) -> Seq<Seq<u8>> {
    pi1_ops_before_challenge(p_hat_enc, y_hat) + t_op(1, C_1_LABEL@, Seq::<u8>::empty())
}

impl Pi_1_Proof {
    /// The stage's fragment is empty.
    pub fn siz(&self) -> (r: usize)
        ensures
            r == 0,
    {
        0
    }

    pub fn protocol_name() -> (r: &'static [u8])
        ensures
            r@ == PI_1_NAME@,
    {
        &PI_1_NAME
    }

    /// Extends the statement: `z_hat = z ++ [phi]`, `G_hat = G ++ [h]`,
    /// `L_hat = l ++ [0]`; commits `P_hat = MSM(z_hat, G_hat)` with no
    /// extra blinding; appends `(P_hat, y_hat)`; rescales
    /// `L_tilde = c_1 * L_hat` by the recomputable challenge `c_1`.
    pub fn mod_prove(
        transcript: &mut ProofTranscript,
        gens_n: &MultiCommitGens,
        z_vec: &Vec<Scalar>,
        phi: &Scalar,
        l_form_vec: &Vec<Scalar>,
    ) -> (r: (Pi_1_Proof, CompressedGroup, Scalar, Vec<Scalar>, Vec<Scalar>, Vec<RistrettoPoint>))
        requires
            gens_n.wf(),
            gens_n.n == z_vec@.len(),
            l_form_vec@.len() == z_vec@.len(),
        ensures
            r.4@ == z_vec@.push(*phi),
            r.5@ == gens_n.G@.push(gens_n.h),
            scalar_val(r.2) == dot(vals(l_form_vec@).push(0), vals(r.4@)),
            r.1@ == pt_msm_enc(vals(r.4@), encs(r.5@)),
            pt_valid(r.1@),
            r.3@.len() == l_form_vec@.len() + 1,
            forall|i: int| 0 <= i < r.3@.len() ==> scalar_val(#[trigger] r.3@[i]) == (pi1_challenge(
                old(transcript)@,
                r.1@,
                scalar_val(r.2),
            ) * vals(l_form_vec@).push(0)[i]) % crate::curve25519::group_order(),
            final(transcript)@ == old(transcript)@ + pi1_ops(r.1@, scalar_val(r.2)),
    {
        transcript.append_protocol_name(Pi_1_Proof::protocol_name());

        let mut G_hat = copy_point_vec(&gens_n.G);
        G_hat.push(gens_n.h);

        let mut z_hat = copy_scalar_vec(z_vec);
        z_hat.push(*phi);

        let mut L_hat = copy_scalar_vec(l_form_vec);
        L_hat.push(sc_zero());

        proof {
            assert(vals(L_hat@) =~= vals(l_form_vec@).push(0));
            assert(vals(z_hat@) =~= vals(z_vec@).push(scalar_val(*phi)));
        }

        let y_hat = compute_linearform(&L_hat, &z_hat);

        let P_hat = pt_compress(&pt_msm(&z_hat, &G_hat));

        transcript.append_point(&P_HAT_LABEL, &P_hat);
        transcript.append_scalar(&Y_HAT_LABEL, &y_hat);

        proof {
            assert(transcript@ =~~= old(transcript)@ + pi1_ops_before_challenge(
                P_hat@,
                scalar_val(y_hat),
            ));
        }
        let c_1 = transcript.challenge_scalar(&C_1_LABEL);
        proof {
            assert(transcript@ =~~= old(transcript)@ + pi1_ops(P_hat@, scalar_val(y_hat)));
        }

        let mut L_tilde: Vec<Scalar> = Vec::new();
        let mut i: usize = 0;
        while i < L_hat.len()
            invariant
                i <= L_hat@.len(),
                L_tilde@.len() == i,
                forall|j: int| 0 <= j < i ==> scalar_val(#[trigger] L_tilde@[j]) == (scalar_val(c_1)
                    * scalar_val(L_hat@[j])) % crate::curve25519::group_order(),
            decreases L_hat@.len() - i,
        {
            L_tilde.push(sc_mul(&c_1, &L_hat[i]));
            i += 1;
        }

        (Pi_1_Proof {  }, P_hat, y_hat, L_tilde, z_hat, G_hat)
    }

    /// Replays the stage's appends from the proof's `(P_hat, y_hat)` and
    /// returns the recomputed challenge `c_1`.
    pub fn mod_verify(
        &self,
        transcript: &mut ProofTranscript,
        P_hat: &CompressedGroup,
        y_hat: &Scalar,
    ) -> (c: Scalar)
        ensures
            scalar_val(c) == pi1_challenge(old(transcript)@, P_hat@, scalar_val(*y_hat)),
            final(transcript)@ == old(transcript)@ + pi1_ops(P_hat@, scalar_val(*y_hat)),
    {
        transcript.append_protocol_name(Pi_1_Proof::protocol_name());
        transcript.append_point(&P_HAT_LABEL, P_hat);
        transcript.append_scalar(&Y_HAT_LABEL, y_hat);

        proof {
            assert(transcript@ =~~= old(transcript)@ + pi1_ops_before_challenge(
                P_hat@,
                scalar_val(*y_hat),
            ));
        }
        let c_1 = transcript.challenge_scalar(&C_1_LABEL);
        proof {
            assert(transcript@ =~~= old(transcript)@ + pi1_ops(P_hat@, scalar_val(*y_hat)));
        }

        c_1
    }
}

} // verus!
