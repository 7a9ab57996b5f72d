//! The non-hiding stages: the domain extension that folds the opening and
//! evaluation checks into one extended statement, and the recursive
//! folding argument that proves it in logarithmic size.

pub mod bullet_proof;
pub mod pi_1_protocol;
pub mod pi_2_protocol;
