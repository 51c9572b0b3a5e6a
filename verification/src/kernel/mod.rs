//! Kernel actors: the shared launch envelope and one module per library.

pub mod blas;
pub mod blas_lt;
pub mod collective;
pub mod cudnn;
pub mod envelope;
pub mod lru_model;
