//! `CollectiveActor`: one rank of an NCCL world.
//!
//! A request is validated and becomes a [`CollectiveRun`], the NCCL calls to
//! make in order. The runtime makes each call and reports its outcome; the run
//! says what the caller gets.

pub mod actor;
pub mod all_to_all;
pub mod capabilities;
pub mod custom_op;
pub mod group;
pub mod requests;
pub mod run;

pub use actor::{CollectiveAction, CollectiveActor, CollectiveInner, CollectiveMsg};
pub use all_to_all::{AllToAllRequest, AllToAllvRequest};
pub use capabilities::{probe_capabilities, BuildFeatures, NcclCapabilities};
pub use custom_op::{PreMulSumOp, PreMulSumPlan};
pub use group::{GroupGuard, GroupTracker};
pub use requests::{
    AllGatherRequest, AllReduceRequest, BroadcastRequest, CollectiveBody, CollectiveOp,
    RecvRequest, ReduceRequest, ReduceScatterRequest, SendRequest,
};
pub use run::{CollStep, CollectiveRun, Overrun, PeerScope, Span};

use vstd::prelude::*;

use crate::dtype::{Bf16, CudaDtype, F16, F32, F64};

verus! {

/// Library tag of the actor's errors.
pub const LIB: &'static str = "nccl";

/// Reduction of a collective.
#[derive(Debug, Clone, Copy, PartialEq, Eq, Structural)]
pub enum ReduceOp {
    Sum,
    Prod,
    Max,
    Min,
    Avg,
}

/// Dtype of a collective request, for tracing.
#[derive(Debug, Clone, Copy, PartialEq, Eq, Structural)]
pub enum DispatchDType {
    F32,
    F64,
    I8,
    U8,
    I32,
    U32,
    I64,
    U64,
    F16,
    Bf16,
}

/// Marker of the element types that collectives carry.
pub trait NcclReduceSupported: CudaDtype {
    spec fn spec_dispatch_dtype() -> DispatchDType;

    /// NCCL has a data type for every element type that collectives carry.
    proof fn law_has_nccl_type()
        ensures
            Self::spec_element().spec_nccl() is Some,
    ;

    /// Dtype tag for tracing.
    fn dispatch_dtype() -> (d: DispatchDType)
        ensures
            d == Self::spec_dispatch_dtype(),
    ;
}

impl NcclReduceSupported for F32 {
    open spec fn spec_dispatch_dtype() -> DispatchDType {
        DispatchDType::F32
    }

    proof fn law_has_nccl_type() {
    }

    fn dispatch_dtype() -> (d: DispatchDType) {
        DispatchDType::F32
    }
}

impl NcclReduceSupported for F64 {
    open spec fn spec_dispatch_dtype() -> DispatchDType {
        DispatchDType::F64
    }

    proof fn law_has_nccl_type() {
    }

    fn dispatch_dtype() -> (d: DispatchDType) {
        DispatchDType::F64
    }
}

impl NcclReduceSupported for i8 {
    open spec fn spec_dispatch_dtype() -> DispatchDType {
        DispatchDType::I8
    }

    proof fn law_has_nccl_type() {
    }

    fn dispatch_dtype() -> (d: DispatchDType) {
        DispatchDType::I8
    }
}

impl NcclReduceSupported for u8 {
    open spec fn spec_dispatch_dtype() -> DispatchDType {
        DispatchDType::U8
    }

    proof fn law_has_nccl_type() {
    }

    fn dispatch_dtype() -> (d: DispatchDType) {
        DispatchDType::U8
    }
}

impl NcclReduceSupported for i32 {
    open spec fn spec_dispatch_dtype() -> DispatchDType {
        DispatchDType::I32
    }

    proof fn law_has_nccl_type() {
    }

    fn dispatch_dtype() -> (d: DispatchDType) {
        DispatchDType::I32
    }
}

impl NcclReduceSupported for u32 {
    open spec fn spec_dispatch_dtype() -> DispatchDType {
        DispatchDType::U32
    }

    proof fn law_has_nccl_type() {
    }

    fn dispatch_dtype() -> (d: DispatchDType) {
        DispatchDType::U32
    }
}

impl NcclReduceSupported for i64 {
    open spec fn spec_dispatch_dtype() -> DispatchDType {
        DispatchDType::I64
    }

    proof fn law_has_nccl_type() {
    }

    fn dispatch_dtype() -> (d: DispatchDType) {
        DispatchDType::I64
    }
}

impl NcclReduceSupported for u64 {
    open spec fn spec_dispatch_dtype() -> DispatchDType {
        DispatchDType::U64
    }

    proof fn law_has_nccl_type() {
    }

    fn dispatch_dtype() -> (d: DispatchDType) {
        DispatchDType::U64
    }
}

impl NcclReduceSupported for F16 {
    open spec fn spec_dispatch_dtype() -> DispatchDType {
        DispatchDType::F16
    }

    proof fn law_has_nccl_type() {
    }

    fn dispatch_dtype() -> (d: DispatchDType) {
        DispatchDType::F16
    }
}

impl NcclReduceSupported for Bf16 {
    open spec fn spec_dispatch_dtype() -> DispatchDType {
        DispatchDType::Bf16
    }

    proof fn law_has_nccl_type() {
    }

    fn dispatch_dtype() -> (d: DispatchDType) {
        DispatchDType::Bf16
    }
}

/// The tag for tracing is that of the element type.
pub proof fn law_dispatch_tags()
    ensures
        F32::spec_dispatch_dtype() is F32,
        F64::spec_dispatch_dtype() is F64,
        F16::spec_dispatch_dtype() is F16,
        Bf16::spec_dispatch_dtype() is Bf16,
        i8::spec_dispatch_dtype() is I8,
        u8::spec_dispatch_dtype() is U8,
        i32::spec_dispatch_dtype() is I32,
        u32::spec_dispatch_dtype() is U32,
        i64::spec_dispatch_dtype() is I64,
        u64::spec_dispatch_dtype() is U64,
{
}

} // verus!
