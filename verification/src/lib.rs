#![allow(non_snake_case)]
#![allow(non_camel_case_types)]
//! A non-interactive zero-knowledge argument that a hidden vector `x`
//! satisfies a batch of public affine constraints `M * x = b`.
//!
//! The pipeline batches the constraint rows into one linear form
//! (Fiat-Shamir random linear combination), opens a hiding commitment with a
//! Sigma protocol, folds the opening check and the evaluation check into one
//! extended statement, and proves that statement with a logarithmic-size
//! recursive folding argument.

pub mod commitments;
pub mod curve25519;
pub mod errors;
pub mod math;
pub mod nozk_protocol;
pub mod public_parameters;
pub mod random;
pub mod scalar_math;
pub mod transcript;
pub mod zk_protocol;
