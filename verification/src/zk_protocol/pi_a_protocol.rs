//! The constraint batcher and outermost entry point: it reduces the `s`
//! affine rows to one linear form with a Vandermonde vector of a
//! Fiat-Shamir challenge, then proves or verifies that single form with
//! the compressed pipeline. No values travel for this stage: the verifier
//! recomputes the challenge and the batched form from the same public
//! statement and transcript prefix.

use crate::commitments::DotProductProofGens;
use crate::curve25519::commit_enc;
use crate::curve25519::encs;
use crate::curve25519::point_enc;
use crate::curve25519::pt_valid;
use crate::curve25519::scalar_val;
use crate::curve25519::vals;
use crate::curve25519::CompressedGroup;
use crate::errors::ProofVerifyError;
use crate::math::is_pow2;
use crate::random::RandomTape;
use crate::scalar_math::compute_linearform;
use crate::scalar_math::dot;
use crate::scalar_math::matrix_transpose;
use crate::scalar_math::matrix_vector_mul;
use crate::scalar_math::pow_mod;
use crate::scalar_math::vandemonde_challenge_one;
use crate::transcript::challenge_val;
use crate::transcript::t_op;
use crate::transcript::ProofTranscript;
use crate::transcript::PI_A_NAME;
use crate::transcript::PROTOCOL_NAME_LABEL;
use crate::transcript::RHO_LABEL;
use crate::zk_protocol::pi_c_protocol::pi_c_verify_spec;
use crate::zk_protocol::pi_c_protocol::Pi_c_Proof;
use curve25519_dalek::scalar::Scalar;
use vstd::prelude::*;

verus! {

/// The affine-form proof: the compressed pipeline's proof for the batched
/// linear form.
pub struct Pi_Affine_Proof {
    pub proof: Pi_c_Proof,
}

/// The values of a matrix of scalars, row by row.
pub open spec fn mat_vals(m: Seq<Vec<Scalar>>) -> Seq<Seq<nat>> {
    m.map(|i: int, row: Vec<Scalar>| vals(row@))
}

/// The `j`-th column of a matrix of values.
pub open spec fn col(mv: Seq<Seq<nat>>, j: int) -> Seq<nat> {
    Seq::new(mv.len(), |i: int| mv[i][j])
}

/// The Vandermonde vector `(1, rho, ..., rho^(s-1))` of values.
pub open spec fn pow_vec(rho: nat, s: nat) -> Seq<nat> {
    Seq::new(s, |i: int| pow_mod(rho, i as nat))
}

/// The batched linear form: column `j` of the row matrix combined with
/// the Vandermonde vector, `l[j] = sum_i rho^i * M[i][j]`.
pub open spec fn batched_l(mv: Seq<Seq<nat>>, rho: nat, cols: nat) -> Seq<nat> {
    Seq::new(cols, |j: int| dot(col(mv, j), pow_vec(rho, mv.len())))
}

/// This stage's protocol-name transcript operation.
pub open spec fn pi_a_name_op() -> Seq<Seq<u8>> {
    t_op(0, PROTOCOL_NAME_LABEL@, PI_A_NAME@)
}

/// The batching challenge `rho`: a function of the transcript prefix
/// alone, recomputed identically and independently by both sides.
pub open spec fn pi_a_rho(log0: Seq<Seq<u8>>) -> nat {
    challenge_val(log0 + pi_a_name_op(), RHO_LABEL@)
}

/// Whether the statement matrix has the agreed shape: at least one row,
/// all rows of length `n`.
pub open spec fn statement_wf(m: Seq<Vec<Scalar>>, n: nat) -> bool {
    &&& m.len() > 0
    &&& forall|i: int| 0 <= i < m.len() ==> (#[trigger] m[i]@).len() == n
}

/// What `verify` returns, as a function of the transcript prefix, the
/// public statement, the generators and the received proof alone.
pub open spec fn pi_a_verify_spec(
    log0: Seq<Seq<u8>>,
    n: nat,
    gens_count: nat,
    g_encs: Seq<Seq<u8>>,
    h_enc: Seq<u8>,
    k_enc: Seq<u8>,
    m: Seq<Vec<Scalar>>,
    a_enc: Seq<u8>,
    t: nat,
    bp: crate::nozk_protocol::bullet_proof::BulletReductionProof,
    p_enc: Seq<u8>,
    y: nat,
    p_hat_enc: Seq<u8>,
) -> Result<(), ProofVerifyError> {
    if !statement_wf(m, n) {
        Err(ProofVerifyError::MalformedInput)
    } else {
        let rho = pi_a_rho(log0);
        let log1 = log0 + pi_a_name_op() + t_op(1, RHO_LABEL@, Seq::<u8>::empty());
        pi_c_verify_spec(
            log1,
            n,
            gens_count,
            g_encs,
            h_enc,
            k_enc,
            batched_l(mat_vals(m), rho, n),
            a_enc,
            t,
            bp,
            p_enc,
            y,
            p_hat_enc,
        )
    }
}

/// The transcript log `verify` leaves behind: nothing on a malformed
/// statement; its own name and batching challenge, then whatever the
/// compressed pipeline's replay left.
pub open spec fn pi_a_verify_final_log(
    log0: Seq<Seq<u8>>,
    n: nat,
    gens_count: nat,
    g_encs: Seq<Seq<u8>>,
    h_enc: Seq<u8>,
    k_enc: Seq<u8>,
    m: Seq<Vec<Scalar>>,
    a_enc: Seq<u8>,
    t: nat,
    bp: crate::nozk_protocol::bullet_proof::BulletReductionProof,
    p_enc: Seq<u8>,
    y: nat,
    p_hat_enc: Seq<u8>,
) -> Seq<Seq<u8>> {
    if !statement_wf(m, n) {
        log0
    } else {
        let rho = pi_a_rho(log0);
        let log1 = log0 + pi_a_name_op() + t_op(1, RHO_LABEL@, Seq::<u8>::empty());
        crate::zk_protocol::pi_c_protocol::pi_c_verify_final_log(
            log1,
            n,
            gens_count,
            g_encs,
            h_enc,
            k_enc,
            batched_l(mat_vals(m), rho, n),
            a_enc,
            t,
            bp,
            p_enc,
            y,
            p_hat_enc,
        )
    }
}

/// Law: the constraint batcher's challenge `rho` and the domain
/// extender's challenge `c_1`, recomputed independently by prover and
/// verifier from identical public inputs and identical transcript
/// prefixes, are bit-identical: each is a function of the prefix and the
/// appended public values alone.
pub proof fn lemma_challenges_deterministic(
    log_p: Seq<Seq<u8>>,
    log_v: Seq<Seq<u8>>,
    p_hat_enc: Seq<u8>,
    y_hat: nat,
)
    requires
        log_p == log_v,
    ensures
        pi_a_rho(log_p) == pi_a_rho(log_v),
        crate::nozk_protocol::pi_1_protocol::pi1_challenge(log_p, p_hat_enc, y_hat)
            == crate::nozk_protocol::pi_1_protocol::pi1_challenge(log_v, p_hat_enc, y_hat),
{
}

/// Law: verification is idempotent — on one statement and proof, two
/// independently initialized transcripts with equal logs give the same
/// outcome, since the outcome is a function of the log and the public
/// values alone.
pub proof fn lemma_verify_idempotent(
    log_a: Seq<Seq<u8>>,
    log_b: Seq<Seq<u8>>,
    n: nat,
    gens_count: nat,
    g_encs: Seq<Seq<u8>>,
    h_enc: Seq<u8>,
    k_enc: Seq<u8>,
    m: Seq<Vec<Scalar>>,
    a_enc: Seq<u8>,
    t: nat,
    bp: crate::nozk_protocol::bullet_proof::BulletReductionProof,
    p_enc: Seq<u8>,
    y: nat,
    p_hat_enc: Seq<u8>,
)
    requires
        log_a == log_b,
    ensures
        pi_a_verify_spec(log_a, n, gens_count, g_encs, h_enc, k_enc, m, a_enc, t, bp, p_enc, y, p_hat_enc)
            == pi_a_verify_spec(
            log_b,
            n,
            gens_count,
            g_encs,
            h_enc,
            k_enc,
            m,
            a_enc,
            t,
            bp,
            p_enc,
            y,
            p_hat_enc,
        ),
{
}

impl Pi_Affine_Proof {
    /// The number of scalars and points in the proof, saturating at the
    /// machine limit.
    pub fn siz(&self) -> (r: usize)
        ensures
            r == if 2 + self.proof.proof_2.bullet_reduction_proof.A_vec@.len()
                + self.proof.proof_2.bullet_reduction_proof.B_vec@.len()
                + self.proof.proof_2.bullet_reduction_proof.z@.len() <= usize::MAX {
                2 + self.proof.proof_2.bullet_reduction_proof.A_vec@.len()
                    + self.proof.proof_2.bullet_reduction_proof.B_vec@.len()
                    + self.proof.proof_2.bullet_reduction_proof.z@.len()
            } else {
                usize::MAX as nat
            },
    {
        let inner = self.proof.proof_2.siz();
        if inner <= usize::MAX - 2 {
            inner + 2
        } else {
            usize::MAX
        }
    }

    pub fn protocol_name() -> (r: &'static [u8])
        ensures
            r@ == PI_A_NAME@,
    {
        &PI_A_NAME
    }

    /// Proves `M * x = b` in its extended form: derives the batching
    /// challenge `rho`, folds the rows into one linear form, evaluates
    /// `y = <l, x>`, and runs the compressed pipeline. Returns the proof
    /// and the public `(P, P_hat, y)`.
    pub fn prove(
        gens: &DotProductProofGens,
        transcript: &mut ProofTranscript,
        prover_random_tape: &mut RandomTape,
        x_vec: &Vec<Scalar>,
        gamma: &Scalar,
        l_matric: &Vec<Vec<Scalar>>,
    ) -> (r: (Pi_Affine_Proof, CompressedGroup, CompressedGroup, Scalar))
        requires
            gens.wf(),
            gens.gens_n.n == x_vec@.len(),
            statement_wf(l_matric@, x_vec@.len() as nat),
            is_pow2((x_vec@.len() + 1) as nat),
            1 <= x_vec@.len() < usize::MAX,
        ensures
            scalar_val(r.3) == dot(
                batched_l(
                    mat_vals(l_matric@),
                    pi_a_rho(old(transcript)@),
                    x_vec@.len() as nat,
                ),
                vals(x_vec@),
            ),
            r.1@ == commit_enc(
                vals(x_vec@),
                encs(gens.gens_n.G@),
                scalar_val(*gamma),
                point_enc(gens.gens_n.h),
            ),
            pt_valid(r.1@),
            pt_valid(r.2@),
            crate::zk_protocol::pi_c_protocol::pi_c_prove_linked(
                old(transcript)@ + pi_a_name_op() + t_op(1, RHO_LABEL@, Seq::<u8>::empty()),
                encs(gens.gens_n.G@),
                point_enc(gens.gens_n.h),
                point_enc(gens.gens_1.G@[0]),
                batched_l(mat_vals(l_matric@), pi_a_rho(old(transcript)@), x_vec@.len() as nat),
                vals(x_vec@),
                scalar_val(*gamma),
                scalar_val(r.3),
                r.0.proof,
                r.1@,
                r.2@,
                final(transcript)@,
            ),
    {
        transcript.append_protocol_name(Pi_Affine_Proof::protocol_name());
        proof {
            assert(transcript@ =~~= old(transcript)@ + pi_a_name_op());
        }

        let n = x_vec.len();
        let s = l_matric.len();

        let rho = transcript.challenge_scalar(&RHO_LABEL);
        proof {
            assert(transcript@ =~~= old(transcript)@ + pi_a_name_op() + t_op(
                1,
                RHO_LABEL@,
                Seq::<u8>::empty(),
            ));
        }

        let rho_vec = vandemonde_challenge_one(rho, s);
        let l_matric_t = matrix_transpose(l_matric);
        let l_vec = matrix_vector_mul(&l_matric_t, &rho_vec);
        proof {
            assert forall|j: int| 0 <= j < n implies vals(#[trigger] l_matric_t@[j]@) == col(
                mat_vals(l_matric@),
                j,
            ) by {
                assert(vals(l_matric_t@[j]@) =~= col(mat_vals(l_matric@), j));
            }
            assert(vals(rho_vec@) =~= pow_vec(scalar_val(rho), s as nat));
            assert(vals(l_vec@) =~= batched_l(
                mat_vals(l_matric@),
                scalar_val(rho),
                n as nat,
            ));
        }

        let y = compute_linearform(&l_vec, x_vec);

        let (proof, P, P_hat) = Pi_c_Proof::prove(
            gens,
            transcript,
            prover_random_tape,
            x_vec,
            gamma,
            &l_vec,
            &y,
        );

        (Pi_Affine_Proof { proof }, P, P_hat, y)
    }

    /// Verifies the affine-form proof: recomputes `rho` and the batched
    /// linear form from the same public statement and transcript prefix —
    /// no values travel for this stage — and verifies the compressed
    /// pipeline. The outcome is exactly [`pi_a_verify_spec`]: success is
    /// all-or-nothing, a pure deterministic predicate of statement and
    /// proof for a given transcript prefix.
    pub fn verify(
        &self,
        n: usize,
        gens: &DotProductProofGens,
        transcript: &mut ProofTranscript,
        l_matric: &Vec<Vec<Scalar>>,
        P: &CompressedGroup,
        y: &Scalar,
        P_hat: &CompressedGroup,
    ) -> (r: Result<(), ProofVerifyError>)
        requires
            gens.wf(),
            n < usize::MAX,
        ensures
            r == pi_a_verify_spec(
                old(transcript)@,
                n as nat,
                gens.gens_n.n as nat,
                encs(gens.gens_n.G@),
                point_enc(gens.gens_n.h),
                point_enc(gens.gens_1.G@[0]),
                l_matric@,
                self.proof.proof_0.A@,
                scalar_val(self.proof.proof_0.t),
                self.proof.proof_2.bullet_reduction_proof,
                P@,
                scalar_val(*y),
                P_hat@,
            ),
            final(transcript)@ == pi_a_verify_final_log(
                old(transcript)@,
                n as nat,
                gens.gens_n.n as nat,
                encs(gens.gens_n.G@),
                point_enc(gens.gens_n.h),
                point_enc(gens.gens_1.G@[0]),
                l_matric@,
                self.proof.proof_0.A@,
                scalar_val(self.proof.proof_0.t),
                self.proof.proof_2.bullet_reduction_proof,
                P@,
                scalar_val(*y),
                P_hat@,
            ),
    {
        let s = l_matric.len();
        if s == 0 {
            return Err(ProofVerifyError::MalformedInput);
        }
        let mut i: usize = 0;
        while i < s
            invariant
                transcript@ == old(transcript)@,
                s == l_matric@.len(),
                i <= s,
                forall|j: int| 0 <= j < i ==> (#[trigger] l_matric@[j]@).len() == n,
            decreases s - i,
        {
            if l_matric[i].len() != n {
                return Err(ProofVerifyError::MalformedInput);
            }
            i += 1;
        }

        transcript.append_protocol_name(Pi_Affine_Proof::protocol_name());
        proof {
            assert(transcript@ =~~= old(transcript)@ + pi_a_name_op());
        }

        let rho = transcript.challenge_scalar(&RHO_LABEL);
        proof {
            assert(transcript@ =~~= old(transcript)@ + pi_a_name_op() + t_op(
                1,
                RHO_LABEL@,
                Seq::<u8>::empty(),
            ));
        }

        let rho_vec = vandemonde_challenge_one(rho, s);
        let l_matrix_t = matrix_transpose(l_matric);
        let l_vec = matrix_vector_mul(&l_matrix_t, &rho_vec);
        proof {
            assert forall|j: int| 0 <= j < n implies vals(#[trigger] l_matrix_t@[j]@) == col(
                mat_vals(l_matric@),
                j,
            ) by {
                assert(vals(l_matrix_t@[j]@) =~= col(mat_vals(l_matric@), j));
            }
            assert(vals(rho_vec@) =~= pow_vec(scalar_val(rho), s as nat));
            assert(vals(l_vec@) =~= batched_l(
                mat_vals(l_matric@),
                scalar_val(rho),
                n as nat,
            ));
        }

        self.proof.verify(n, gens, transcript, &l_vec, P, y, P_hat)
    }
}

} // verus!
