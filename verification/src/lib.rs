//! Verified decision core of a CUDA device runtime built from actors.

pub mod device;
pub mod driver_call;
pub mod dtype;
pub mod error;
pub mod event;
pub mod gpu_ref;
pub mod graph;
pub mod hopper;
pub mod kernel;
pub mod steps;
pub mod text;
