//! `BlasLtActor`: matrix products with fused epilogues through cuBLASLt.
//!
//! [`epilogue`] names the fused operations, [`heuristic`] caches algorithms by
//! shape, [`workspace`] recycles workspace slabs, [`scaling`] carries the scale
//! factors of 8-bit products, and [`matmul`] holds the typed requests.

pub mod actor;
pub mod epilogue;
pub mod heuristic;
pub mod matmul;
pub mod scaling;
pub mod workspace;

pub use actor::{BlasLtAction, BlasLtActor, BlasLtInner, BlasLtMsg, BlasLtReal, MatmulF32};
pub use epilogue::{Activation, CublasLtEpilogue, Epilogue};
pub use heuristic::{HeuristicCacheRef, HeuristicEntry, HeuristicKey, DEFAULT_HEURISTIC_CAPACITY};
pub use matmul::{AnyMatmul, LtCall, MatmulConfig, MatmulRequest};
pub use scaling::ScaleSet;
pub use workspace::{WorkspaceLease, WorkspacePool};

use vstd::prelude::*;

verus! {

/// Library tag of the actor's errors.
pub const LIB: &'static str = "cublaslt";

} // verus!
