//! The zero-knowledge stages: the Sigma-protocol three-move core, its
//! commitment opening, and the assemblers that sequence every stage over
//! one shared transcript.

pub mod pi_0_protocol;
pub mod pi_a_protocol;
pub mod pi_c_protocol;
pub mod sigma_phase;
