pub mod matrices;
pub mod scalar;
pub mod special_matrices;
