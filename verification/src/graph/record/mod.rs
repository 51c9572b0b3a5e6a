//! Operations that can be recorded.

pub mod cudnn;
pub mod cusparse;
pub mod fft_r2c;
pub mod memcpy;
pub mod rng_fill_uniform;
pub mod sgemm;
