use affine_zkp::commitments::commit;
use affine_zkp::commitments::DotProductProofGens;
use affine_zkp::curve25519::pt_basepoint;
use affine_zkp::curve25519::pt_compress;
use affine_zkp::curve25519::sc_add;
use affine_zkp::curve25519::sc_eq;
use affine_zkp::curve25519::sc_from_u64;
use affine_zkp::curve25519::sc_neg;
use affine_zkp::curve25519::sc_one;
use affine_zkp::curve25519::sc_zero;
use affine_zkp::curve25519::CompressedGroup;
use affine_zkp::errors::ProofVerifyError;
use affine_zkp::random::RandomTape;
use affine_zkp::scalar_math::compute_linearform;
use affine_zkp::transcript::ProofTranscript;
use affine_zkp::zk_protocol::pi_a_protocol::Pi_Affine_Proof;
use curve25519_dalek::scalar::Scalar;

/// Builds the extended statement and witness for `M * x = b`: appends
/// `b_i` to each row and `-1` to `x`.
fn extend(
    m: &[Vec<u64>],
    b: &[u64],
    x: &[u64],
) -> (Vec<Vec<Scalar>>, Vec<Scalar>) {
    let mut m_hat: Vec<Vec<Scalar>> = Vec::new();
    for (row, bi) in m.iter().zip(b.iter()) {
        let mut r: Vec<Scalar> = row.iter().map(|v| sc_from_u64(*v)).collect();
        r.push(sc_from_u64(*bi));
        m_hat.push(r);
    }
    let mut x_hat: Vec<Scalar> = x.iter().map(|v| sc_from_u64(*v)).collect();
    x_hat.push(sc_neg(&sc_one()));
    (m_hat, x_hat)
}

struct Session {
    gens: DotProductProofGens,
    proof: Pi_Affine_Proof,
    p: CompressedGroup,
    p_hat: CompressedGroup,
    y: Scalar,
    m_hat: Vec<Vec<Scalar>>,
    n: usize,
}

/// Proves the standard example: s = 2, M = [[1,0,0],[0,1,0]], b = [3,5],
/// x = [3,5,7]. Matrix and witness are zero-padded so that the extended
/// witness has length 7 and the folded statement the power-of-two
/// length 8, as the session sizes require.
fn prove_example() -> Session {
    let (m_hat, x_hat) = extend(
        &[vec![1, 0, 0, 0, 0, 0], vec![0, 1, 0, 0, 0, 0]],
        &[3, 5],
        &[3, 5, 7, 0, 0, 0],
    );
    let n = x_hat.len();
    assert_eq!(n, 7);

    let gens = DotProductProofGens::new(n, b"gens");
    let gamma = sc_from_u64(42);

    let mut tape = RandomTape::new(b"proof");
    let mut prover_transcript = ProofTranscript::new(b"Kinesis's protocol");
    let p_secure = pt_compress(&commit(&x_hat, &gamma, &gens.gens_n));
    prover_transcript.append_point(b"P_secure", &p_secure);

    let (proof, p, p_hat, y) = Pi_Affine_Proof::prove(
        &gens,
        &mut prover_transcript,
        &mut tape,
        &x_hat,
        &gamma,
        &m_hat,
    );
    Session { gens, proof, p, p_hat, y, m_hat, n }
}

fn run_verify(s: &Session) -> Result<(), ProofVerifyError> {
    let mut verifier_transcript = ProofTranscript::new(b"Kinesis's protocol");
    verifier_transcript.append_point(b"P_secure", &s.p);
    s.proof.verify(
        s.n,
        &s.gens,
        &mut verifier_transcript,
        &s.m_hat,
        &s.p,
        &s.y,
        &s.p_hat,
    )
}

#[test]
fn end_to_end_example() {
    let s = prove_example();
    // the extended rows all evaluate to zero on the extended witness
    assert!(sc_eq(&s.y, &sc_zero()));
    assert!(run_verify(&s).is_ok());
}

#[test]
fn end_to_end_mutated_y_fails() {
    let mut s = prove_example();
    s.y = sc_add(&s.y, &sc_one());
    assert_eq!(run_verify(&s), Err(ProofVerifyError::VerificationFailure));
}

#[test]
fn completeness_random_instances() {
    // random valid (M, b, x, gamma) with M * x = b verifies, for both
    // extended sizes 4 and 8
    let mut tape = RandomTape::new(b"instance_randomness");
    for trial in 0..3u64 {
        for &nx in &[2usize, 6usize] {
            let mut x_hat: Vec<Scalar> = Vec::new();
            for _ in 0..nx {
                x_hat.push(tape.random_scalar(b"x"));
            }
            let x_plain = x_hat.clone();
            x_hat.push(sc_neg(&sc_one()));

            let s_rows = 3usize;
            let mut m_hat: Vec<Vec<Scalar>> = Vec::new();
            for _ in 0..s_rows {
                let mut row: Vec<Scalar> = Vec::new();
                for _ in 0..nx {
                    row.push(tape.random_scalar(b"m"));
                }
                let b_i = compute_linearform(&row, &x_plain);
                row.push(b_i);
                m_hat.push(row);
            }

            let n = x_hat.len();
            let gens = DotProductProofGens::new(n, b"gens");
            let gamma = tape.random_scalar(b"gamma");

            let mut prover_transcript = ProofTranscript::new(b"Kinesis's protocol");
            let p_secure = pt_compress(&commit(&x_hat, &gamma, &gens.gens_n));
            prover_transcript.append_point(b"P_secure", &p_secure);
            let mut prover_tape = RandomTape::new(b"proof");

            let (proof, p, p_hat, y) = Pi_Affine_Proof::prove(
                &gens,
                &mut prover_transcript,
                &mut prover_tape,
                &x_hat,
                &gamma,
                &m_hat,
            );

            let mut verifier_transcript = ProofTranscript::new(b"Kinesis's protocol");
            verifier_transcript.append_point(b"P_secure", &p);
            let r = proof.verify(n, &gens, &mut verifier_transcript, &m_hat, &p, &y, &p_hat);
            assert!(r.is_ok(), "trial {} size {} rejected", trial, nx);
        }
    }
}

#[test]
fn soundness_flip_sigma_commitment() {
    let mut s = prove_example();
    s.proof.proof.proof_0.A = pt_compress(&pt_basepoint());
    assert!(run_verify(&s).is_err());
}

#[test]
fn soundness_flip_sigma_scalar() {
    let mut s = prove_example();
    s.proof.proof.proof_0.t = sc_add(&s.proof.proof.proof_0.t, &sc_one());
    assert!(run_verify(&s).is_err());
}

#[test]
fn soundness_flip_round_commitments() {
    let rounds = prove_example().proof.proof.proof_2.bullet_reduction_proof.A_vec.len();
    assert!(rounds >= 1);
    for i in 0..rounds {
        let mut s = prove_example();
        s.proof.proof.proof_2.bullet_reduction_proof.A_vec[i] = pt_compress(&pt_basepoint());
        assert!(run_verify(&s).is_err(), "flipped round commitment {} accepted", i);

        let mut s2 = prove_example();
        s2.proof.proof.proof_2.bullet_reduction_proof.B_vec[i] = pt_compress(&pt_basepoint());
        assert!(run_verify(&s2).is_err(), "flipped round commitment {} accepted", i);
    }
}

#[test]
fn soundness_flip_final_vector() {
    for i in 0..2usize {
        let mut s = prove_example();
        let old = s.proof.proof.proof_2.bullet_reduction_proof.z[i];
        s.proof.proof.proof_2.bullet_reduction_proof.z[i] = sc_add(&old, &sc_one());
        assert!(run_verify(&s).is_err(), "flipped final entry {} accepted", i);
    }
}

#[test]
fn soundness_flip_public_commitments() {
    let mut s = prove_example();
    s.p = pt_compress(&pt_basepoint());
    assert!(run_verify(&s).is_err());

    let mut s2 = prove_example();
    s2.p_hat = pt_compress(&pt_basepoint());
    assert!(run_verify(&s2).is_err());
}

#[test]
fn decoding_error_on_invalid_point() {
    // 32 bytes with the high bit set are no canonical encoding
    let mut s = prove_example();
    s.proof.proof.proof_0.A = CompressedGroup { bytes: [0xff; 32] };
    assert_eq!(run_verify(&s), Err(ProofVerifyError::DecodingError));
}

#[test]
fn decoding_error_on_invalid_round_point() {
    let mut s = prove_example();
    s.proof.proof.proof_2.bullet_reduction_proof.B_vec[0] = CompressedGroup {
        bytes: [0xff; 32],
    };
    assert_eq!(run_verify(&s), Err(ProofVerifyError::DecodingError));
}

#[test]
fn malformed_input_on_empty_statement() {
    let s = prove_example();
    let mut verifier_transcript = ProofTranscript::new(b"Kinesis's protocol");
    verifier_transcript.append_point(b"P_secure", &s.p);
    let empty: Vec<Vec<Scalar>> = Vec::new();
    let r = s.proof.verify(
        s.n,
        &s.gens,
        &mut verifier_transcript,
        &empty,
        &s.p,
        &s.y,
        &s.p_hat,
    );
    assert_eq!(r, Err(ProofVerifyError::MalformedInput));
}

#[test]
fn internal_error_on_wrong_round_count() {
    let mut s = prove_example();
    let extra = pt_compress(&pt_basepoint());
    s.proof.proof.proof_2.bullet_reduction_proof.A_vec.push(extra);
    s.proof.proof.proof_2.bullet_reduction_proof.B_vec.push(extra);
    assert_eq!(run_verify(&s), Err(ProofVerifyError::InternalError));
}

#[test]
fn internal_error_on_oversized_round_count() {
    // a proof claiming 32 round pairs is rejected before any work
    let mut s = prove_example();
    let filler = pt_compress(&pt_basepoint());
    let bp = &mut s.proof.proof.proof_2.bullet_reduction_proof;
    bp.A_vec.clear();
    bp.B_vec.clear();
    for _ in 0..32 {
        bp.A_vec.push(filler);
        bp.B_vec.push(filler);
    }
    assert_eq!(run_verify(&s), Err(ProofVerifyError::InternalError));
}

#[test]
fn round_count_is_logarithmic() {
    // folded length 8: exactly log2(8) - 1 = 2 round pairs
    let s = prove_example();
    let bp = &s.proof.proof.proof_2.bullet_reduction_proof;
    assert_eq!(bp.A_vec.len(), 2);
    assert_eq!(bp.B_vec.len(), 2);
    assert_eq!(bp.z.len(), 2);
    // the proof size counts the two sigma values and the fragment
    assert_eq!(s.proof.proof.proof_1.siz(), 0);
    assert_eq!(s.proof.proof.proof_2.siz(), 6);
    assert_eq!(s.proof.siz(), 8);
}

#[test]
fn verify_is_idempotent() {
    let s = prove_example();
    let first = run_verify(&s);
    let second = run_verify(&s);
    assert_eq!(first, second);
    assert!(first.is_ok());

    let mut bad = prove_example();
    bad.y = sc_add(&bad.y, &sc_one());
    assert_eq!(run_verify(&bad), run_verify(&bad));
}
