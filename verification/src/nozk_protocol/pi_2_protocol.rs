//! The wrapper around the folding argument: commits the combined
//! statement `Q = MSM(z_hat, G_hat) + <L_tilde, z_hat> * k`, appends it,
//! and runs the recursive reduction over the same transcript.

use crate::commitments::MultiCommitGens;
use crate::curve25519::encs;
use crate::curve25519::point_enc;
use crate::curve25519::pt_add;
use crate::curve25519::pt_add_enc;
use crate::curve25519::pt_compress;
use crate::curve25519::pt_decompress;
use crate::curve25519::pt_msm;
use crate::curve25519::pt_msm_enc;
use crate::curve25519::pt_mul_enc;
use crate::curve25519::pt_smul;
use crate::curve25519::pt_valid;
use crate::curve25519::vals;
use crate::curve25519::CompressedGroup;
use crate::errors::ProofVerifyError;
use crate::math::is_pow2;
use crate::nozk_protocol::bullet_proof::bullet_prove_post;
use crate::nozk_protocol::bullet_proof::bullet_verify_post;
use crate::nozk_protocol::bullet_proof::BulletReductionProof;
use crate::scalar_math::compute_linearform;
use crate::scalar_math::dot;
use crate::transcript::t_op;
use crate::transcript::ProofTranscript;
use crate::transcript::PI_2_NAME;
use crate::transcript::PROTOCOL_NAME_LABEL;
use crate::transcript::Q_LABEL;
use curve25519_dalek::scalar::Scalar;
use vstd::prelude::*;

verus! {

/// The final stage's fragment: the folding argument's rounds and final
/// vector.
pub struct Pi_2_Proof {
    pub bullet_reduction_proof: BulletReductionProof,
}

/// The stage's own transcript operations before the folding rounds: its
/// protocol name and the combined commitment `Q`.
pub open spec fn pi2_ops(q_enc: Seq<u8>) -> Seq<Seq<u8>> {
    t_op(0, PROTOCOL_NAME_LABEL@, PI_2_NAME@) + t_op(0, Q_LABEL@, q_enc)
}

/// The combined commitment: `MSM(z_hat, G_hat) + <L_tilde, z_hat> * k`.
pub open spec fn q_enc_of(z_hat: Seq<nat>, g_hat: Seq<Seq<u8>>, l_tilde: Seq<nat>, k: Seq<u8>) -> Seq<
    u8,
> {
    pt_add_enc(pt_msm_enc(z_hat, g_hat), pt_mul_enc(dot(l_tilde, z_hat), k))
}

impl Pi_2_Proof {
    /// The size of the fragment is the size of the folding argument's.
    pub fn siz(&self) -> (r: usize)
        ensures
            r == if self.bullet_reduction_proof.A_vec@.len()
                + self.bullet_reduction_proof.B_vec@.len()
                + self.bullet_reduction_proof.z@.len() <= usize::MAX {
                self.bullet_reduction_proof.A_vec@.len() + self.bullet_reduction_proof.B_vec@.len()
                    + self.bullet_reduction_proof.z@.len()
            } else {
                usize::MAX as nat
            },
    {
        self.bullet_reduction_proof.siz()
    }

    pub fn protocol_name() -> (r: &'static [u8])
        ensures
            r@ == PI_2_NAME@,
    {
        &PI_2_NAME
    }

    /// Commits the combined statement as `Q`, appends it, and folds.
    pub fn mod_prove(
        gens_n: &MultiCommitGens,
        gens_1: &MultiCommitGens,
        transcript: &mut ProofTranscript,
        L_tilde: &Vec<Scalar>,
        z_hat: &Vec<Scalar>,
    ) -> (r: (Pi_2_Proof, CompressedGroup))
        requires
            gens_n.wf(),
            gens_1.wf(),
            gens_1.n == 1,
            gens_n.n == z_hat@.len(),
            L_tilde@.len() == z_hat@.len(),
            is_pow2(z_hat@.len() as nat),
            z_hat@.len() >= 2,
        ensures
            r.1@ == q_enc_of(
                vals(z_hat@),
                encs(gens_n.G@),
                vals(L_tilde@),
                point_enc(gens_1.G@[0]),
            ),
            pt_valid(r.1@),
            bullet_prove_post(
                r.0.bullet_reduction_proof,
                old(transcript)@ + pi2_ops(r.1@),
                vals(z_hat@),
                vals(L_tilde@),
                encs(gens_n.G@),
                point_enc(gens_1.G@[0]),
                final(transcript)@,
            ),
    {
        transcript.append_protocol_name(Pi_2_Proof::protocol_name());

        let lin = compute_linearform(L_tilde, z_hat);
        let msm = pt_msm(z_hat, &gens_n.G);
        let lk = pt_smul(&lin, &gens_1.G[0]);
        let Q_point = pt_add(&msm, &lk);
        let Q = pt_compress(&Q_point);

        transcript.append_point(&Q_LABEL, &Q);
        proof {
            assert(transcript@ =~~= old(transcript)@ + pi2_ops(Q@));
        }

        let bullet = BulletReductionProof::prove(
            transcript,
            &gens_1.G[0],
            &gens_n.G,
            z_hat,
            L_tilde,
        );

        (Pi_2_Proof { bullet_reduction_proof: bullet }, Q)
    }

    /// Appends its name and the received `Q`, decodes `Q`, and hands the
    /// check to the folding argument's verifier.
    pub fn mod_verify(
        &self,
        n: usize,
        gens_n: &MultiCommitGens,
        gens_1: &MultiCommitGens,
        transcript: &mut ProofTranscript,
        L_tilde: &Vec<Scalar>,
        Q: &CompressedGroup,
    ) -> (r: Result<(), ProofVerifyError>)
        requires
            gens_n.wf(),
            gens_1.wf(),
            gens_1.n == 1,
            gens_n.n == n,
            L_tilde@.len() == n,
        ensures
            !pt_valid(Q@) ==> r == Err::<(), ProofVerifyError>(ProofVerifyError::DecodingError)
                && final(transcript)@ == old(transcript)@ + pi2_ops(Q@),
            pt_valid(Q@) ==> bullet_verify_post(
                self.bullet_reduction_proof,
                n as nat,
                old(transcript)@ + pi2_ops(Q@),
                vals(L_tilde@),
                Q@,
                point_enc(gens_1.G@[0]),
                encs(gens_n.G@),
                final(transcript)@,
                r,
            ),
    {
        transcript.append_protocol_name(Pi_2_Proof::protocol_name());
        transcript.append_point(&Q_LABEL, Q);
        proof {
            assert(transcript@ =~~= old(transcript)@ + pi2_ops(Q@));
        }

        match pt_decompress(Q) {
            Some(Q_point) => {
                self.bullet_reduction_proof.verify(
                    n,
                    L_tilde,
                    transcript,
                    &Q_point,
                    &gens_1.G[0],
                    &gens_n.G,
                )
            },
            None => Err(ProofVerifyError::DecodingError),
        }
    }
}

} // verus!
