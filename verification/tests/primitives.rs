use affine_zkp::curve25519::pt_add;
use affine_zkp::curve25519::pt_basepoint;
use affine_zkp::curve25519::pt_compress;
use affine_zkp::curve25519::pt_decompress;
use affine_zkp::curve25519::pt_eq;
use affine_zkp::curve25519::pt_smul;
use affine_zkp::curve25519::sc_add;
use affine_zkp::curve25519::sc_eq;
use affine_zkp::curve25519::sc_from_bytes_wide;
use affine_zkp::curve25519::sc_from_u64;
use affine_zkp::curve25519::sc_mul;
use affine_zkp::curve25519::sc_neg;
use affine_zkp::curve25519::sc_one;
use affine_zkp::curve25519::sc_to_bytes;
use affine_zkp::curve25519::sc_zero;
use affine_zkp::curve25519::CompressedGroup;
use affine_zkp::math::eq_pow2;
use affine_zkp::public_parameters::input_check;
use affine_zkp::public_parameters::input_init;
use affine_zkp::public_parameters::new_gens;
use affine_zkp::public_parameters::Input_;
use affine_zkp::scalar_math::compute_linearform;
use affine_zkp::scalar_math::matrix_transpose;
use affine_zkp::scalar_math::matrix_vector_mul;
use affine_zkp::scalar_math::vandemonde_challenge_one;
use affine_zkp::transcript::ProofTranscript;
use affine_zkp::zk_protocol::sigma_phase::response_phase;
use curve25519_dalek::scalar::Scalar;

fn sc(x: u64) -> Scalar {
    sc_from_u64(x)
}

#[test]
fn scalar_field_arithmetic() {
    assert!(sc_eq(&sc_add(&sc(2), &sc(3)), &sc(5)));
    assert!(sc_eq(&sc_mul(&sc(2), &sc(3)), &sc(6)));
    assert!(!sc_eq(&sc(2), &sc(3)));
    // the additive inverse really inverts
    assert!(sc_eq(&sc_add(&sc_neg(&sc_one()), &sc_one()), &sc_zero()));
    // reduction of a wide little-endian integer
    let mut wide = [0u8; 64];
    wide[0] = 7;
    assert!(sc_eq(&sc_from_bytes_wide(&wide), &sc(7)));
    // canonical little-endian bytes
    let bytes = sc_to_bytes(&sc(258));
    assert_eq!(bytes[0], 2);
    assert_eq!(bytes[1], 1);
    assert_eq!(&bytes[2..], &[0u8; 30]);
}

#[test]
fn linearform_exact_value() {
    let a = vec![sc(1), sc(2), sc(3)];
    let b = vec![sc(4), sc(5), sc(6)];
    // 1*4 + 2*5 + 3*6 = 32
    assert!(sc_eq(&compute_linearform(&a, &b), &sc(32)));
}

#[test]
fn vandermonde_powers() {
    let v = vandemonde_challenge_one(sc(3), 4);
    assert_eq!(v.len(), 4);
    for (i, expect) in [1u64, 3, 9, 27].iter().enumerate() {
        assert!(sc_eq(&v[i], &sc(*expect)), "entry {} wrong", i);
    }
}

#[test]
fn transpose_and_matrix_vector_product() {
    let m = vec![vec![sc(1), sc(2)], vec![sc(3), sc(4)], vec![sc(5), sc(6)]];
    let t = matrix_transpose(&m);
    assert_eq!(t.len(), 2);
    assert_eq!(t[0].len(), 3);
    assert!(sc_eq(&t[0][2], &sc(5)));
    assert!(sc_eq(&t[1][0], &sc(2)));
    // t * [1, 1, 1] sums each column of m
    let v = vec![sc(1), sc(1), sc(1)];
    let r = matrix_vector_mul(&t, &v);
    assert_eq!(r.len(), 2);
    assert!(sc_eq(&r[0], &sc(9)));
    assert!(sc_eq(&r[1], &sc(12)));
}

#[test]
fn response_phase_formula() {
    let c = sc(2);
    let x = vec![sc(3), sc(4)];
    let r = vec![sc(1), sc(5)];
    let gamma = sc(7);
    let rho = sc(9);
    let (z, phi) = response_phase(&c, &x, &r, &gamma, &rho);
    assert_eq!(z.len(), 2);
    assert!(sc_eq(&z[0], &sc(7)));
    assert!(sc_eq(&z[1], &sc(13)));
    assert!(sc_eq(&phi, &sc(23)));
}

#[test]
fn challenges_are_deterministic() {
    // identical labels and appends in identical order give bit-identical
    // challenges, independently recomputed
    let mut t1 = ProofTranscript::new(b"session");
    let mut t2 = ProofTranscript::new(b"session");
    t1.append_scalar(b"v", &sc(11));
    t2.append_scalar(b"v", &sc(11));
    let c1 = t1.challenge_scalar(b"rho");
    let c2 = t2.challenge_scalar(b"rho");
    assert!(sc_eq(&c1, &c2));
    assert_eq!(sc_to_bytes(&c1), sc_to_bytes(&c2));
    // and a second draw under the same label differs from the first
    let c1b = t1.challenge_scalar(b"rho");
    assert!(!sc_eq(&c1, &c1b));
}

#[test]
fn challenge_depends_on_appends() {
    let mut t1 = ProofTranscript::new(b"session");
    let mut t2 = ProofTranscript::new(b"session");
    t1.append_scalar(b"v", &sc(11));
    t2.append_scalar(b"v", &sc(12));
    assert!(!sc_eq(&t1.challenge_scalar(b"rho"), &t2.challenge_scalar(b"rho")));
}

#[test]
fn point_operations() {
    let base = pt_basepoint();
    let two_b = pt_add(&base, &base);
    assert!(!pt_eq(&base, &two_b));
    assert!(pt_eq(&two_b, &pt_smul(&sc(2), &base)));
    // compress/decompress round trip
    let c = pt_compress(&two_b);
    let back = pt_decompress(&c).expect("canonical encoding must decode");
    assert!(pt_eq(&back, &two_b));
    // a non-canonical encoding is rejected
    assert!(pt_decompress(&CompressedGroup { bytes: [0xff; 32] }).is_none());
}

#[test]
fn generator_derivation_is_deterministic() {
    let g1 = new_gens(5, b"gens");
    let g2 = new_gens(5, b"gens");
    assert_eq!(g1.len(), 5);
    for i in 0..5 {
        assert!(pt_eq(&g1[i], &g2[i]), "generator {} differs", i);
    }
    // distinct labels give distinct points, and so do distinct indices
    let other = new_gens(5, b"other");
    assert!(!pt_eq(&g1[0], &other[0]));
    assert!(!pt_eq(&g1[0], &g1[1]));
}

#[test]
fn input_dimension_check() {
    let good = Input_ {
        n: 2,
        s: 2,
        M_matric: vec![vec![sc(1), sc(0)], vec![sc(0), sc(1)]],
        b_vec: vec![sc(3), sc(5)],
        x_vec: vec![sc(3), sc(5)],
    };
    assert!(input_check(&good));
    let (n, s, m, b, x) = input_init(&good);
    assert_eq!((n, s), (2, 2));
    assert_eq!(m.len(), 2);
    assert_eq!(b.len(), 2);
    assert_eq!(x.len(), 2);

    let ragged = Input_ {
        n: 2,
        s: 2,
        M_matric: vec![vec![sc(1), sc(0)], vec![sc(0)]],
        b_vec: vec![sc(3), sc(5)],
        x_vec: vec![sc(3), sc(5)],
    };
    assert!(!input_check(&ragged));

    let empty = Input_ {
        n: 0,
        s: 0,
        M_matric: Vec::new(),
        b_vec: Vec::new(),
        x_vec: Vec::new(),
    };
    assert!(!input_check(&empty));

    let wrong_b = Input_ {
        n: 2,
        s: 2,
        M_matric: vec![vec![sc(1), sc(0)], vec![sc(0), sc(1)]],
        b_vec: vec![sc(3)],
        x_vec: vec![sc(3), sc(5)],
    };
    assert!(!input_check(&wrong_b));
}

#[test]
fn power_of_two_recognition() {
    assert!(eq_pow2(1, 0));
    assert!(eq_pow2(8, 3));
    assert!(!eq_pow2(6, 2));
    assert!(!eq_pow2(8, 2));
    assert!(!eq_pow2(0, 0));
}
