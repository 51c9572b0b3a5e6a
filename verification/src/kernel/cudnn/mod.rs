//! `CudnnActor`: operation graphs, their cached plans, and typed requests.
//!
//! Graphs are built without a GPU. The launch path of the typed requests is
//! not there yet: each answers with an error that says so.

pub mod activation;
pub mod actor;
pub mod attention;
pub mod conv;
pub mod dispatch;
pub mod graph;
pub mod norm;
pub mod plan_cache;
pub mod pool;
pub mod rnn;
pub mod signature;
pub mod tensor;

pub use activation::{
    ActivationFwdRequest, ActivationKind, DropoutFwdRequest, LrnFwdRequest, LrnParams,
    SoftmaxFwdRequest, SoftmaxMode,
};
pub use actor::{
    ActivationRequest, ConvForwardRequest, ConvParams, CudnnAction, CudnnActor, CudnnInner,
    CudnnMsg, SoftmaxRequest,
};
pub use attention::{
    AttentionMask, AttentionParams, MultiHeadAttnBwdRequest, MultiHeadAttnFwdRequest,
};
pub use conv::{
    ConvBwdDataRequest, ConvBwdFilterRequest, ConvDescParams, ConvFwdRequest, EpilogueKind,
};
pub use dispatch::CudnnDispatch;
pub use graph::{
    NormMode, NormPhase, OpSpec, OperationGraphSpec, PointwiseMode, PoolKind, ReduceOp,
};
pub use norm::{
    BatchNormRequest, GroupNormRequest, InstanceNormRequest, LayerNormRequest, NormBwdRequest,
};
pub use plan_cache::{cache_key, CachedPlan, PlanCache, PlanCacheKey, DEFAULT_PLAN_CACHE_SIZE};
pub use pool::{PoolBwdRequest, PoolFwdRequest, PoolMode, PoolParams};
pub use rnn::{RnnBwdRequest, RnnDirection, RnnFwdRequest, RnnMode, RnnParams};
pub use tensor::{DtypeTag, TensorLayout, TensorSpec};

use vstd::prelude::*;

verus! {

/// Library tag of the actor's errors.
pub const LIB: &'static str = "cudnn";

} // verus!
