pub mod lin_alg;
pub mod scalar;
