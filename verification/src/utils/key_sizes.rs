//! Byte lengths of the artifacts of each ML-KEM parameter set.

pub mod ml_kem_1024;
pub mod ml_kem_512;
pub mod ml_kem_768;
