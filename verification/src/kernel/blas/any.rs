//! Requests with their kind and element type as tags, so that one message
//! shape carries them all.

use vstd::prelude::*;

use crate::dtype::{Bf16, F16, F32, F64};
use crate::error::{ErrorView, GpuError};
use crate::gpu_ref::{MemoryTable, MemoryView};
use crate::kernel::blas::{
    AsumRequest, AxpyRequest, BlasCall, BlasDispatch, CopyRequest, DotRequest, GeamRequest,
    GemmRequest, GemmStridedBatchedRequest, GemvRequest, GerRequest, IamaxRequest, IaminRequest,
    Nrm2Request, RotRequest, ScalRequest, SwapRequest, SyrkRequest, TrsmRequest,
};

verus! {

/// Matrix product of any element type.
pub enum AnyGemm {
    F32(GemmRequest<F32>),
    F64(GemmRequest<F64>),
    F16(GemmRequest<F16>),
    Bf16(GemmRequest<Bf16>),
}

impl BlasDispatch for AnyGemm {
    open spec fn spec_op_name(&self) -> Seq<char> {
        match self {
            AnyGemm::F32(r) => r.spec_op_name(),
            AnyGemm::F64(r) => r.spec_op_name(),
            AnyGemm::F16(r) => r.spec_op_name(),
            AnyGemm::Bf16(r) => r.spec_op_name(),
        }
    }

    open spec fn spec_dtype_name(&self) -> Seq<char> {
        match self {
            AnyGemm::F32(r) => r.spec_dtype_name(),
            AnyGemm::F64(r) => r.spec_dtype_name(),
            AnyGemm::F16(r) => r.spec_dtype_name(),
            AnyGemm::Bf16(r) => r.spec_dtype_name(),
        }
    }

    open spec fn dispatch_plan(&self, m: MemoryView) -> Result<BlasCall, ErrorView> {
        match self {
            AnyGemm::F32(r) => r.dispatch_plan(m),
            AnyGemm::F64(r) => r.dispatch_plan(m),
            AnyGemm::F16(r) => r.dispatch_plan(m),
            AnyGemm::Bf16(r) => r.dispatch_plan(m),
        }
    }

    open spec fn dispatch_written(&self, m: MemoryView, stream: u64) -> MemoryView {
        match self {
            AnyGemm::F32(r) => r.dispatch_written(m, stream),
            AnyGemm::F64(r) => r.dispatch_written(m, stream),
            AnyGemm::F16(r) => r.dispatch_written(m, stream),
            AnyGemm::Bf16(r) => r.dispatch_written(m, stream),
        }
    }

    open spec fn buffers_current(&self, m: MemoryView) -> bool {
        match self {
            AnyGemm::F32(r) => r.buffers_current(m),
            AnyGemm::F64(r) => r.buffers_current(m),
            AnyGemm::F16(r) => r.buffers_current(m),
            AnyGemm::Bf16(r) => r.buffers_current(m),
        }
    }

    open spec fn owns_targets(&self, m: MemoryView) -> bool {
        match self {
            AnyGemm::F32(r) => r.owns_targets(m),
            AnyGemm::F64(r) => r.owns_targets(m),
            AnyGemm::F16(r) => r.owns_targets(m),
            AnyGemm::Bf16(r) => r.owns_targets(m),
        }
    }

    proof fn law_dispatch_iff(&self, m: MemoryView) {
        match self {
            AnyGemm::F32(r) => r.law_dispatch_iff(m),
            AnyGemm::F64(r) => r.law_dispatch_iff(m),
            AnyGemm::F16(r) => r.law_dispatch_iff(m),
            AnyGemm::Bf16(r) => r.law_dispatch_iff(m),
        }
    }

    fn op_name(&self) -> (s: &'static str) {
        match self {
            AnyGemm::F32(r) => r.op_name(),
            AnyGemm::F64(r) => r.op_name(),
            AnyGemm::F16(r) => r.op_name(),
            AnyGemm::Bf16(r) => r.op_name(),
        }
    }

    fn dtype_name(&self) -> (s: &'static str) {
        match self {
            AnyGemm::F32(r) => r.dtype_name(),
            AnyGemm::F64(r) => r.dtype_name(),
            AnyGemm::F16(r) => r.dtype_name(),
            AnyGemm::Bf16(r) => r.dtype_name(),
        }
    }

    fn dispatch(&self, mem: &mut MemoryTable, stream: u64) -> (r: Result<BlasCall, GpuError>) {
        match self {
            AnyGemm::F32(r) => r.dispatch(mem, stream),
            AnyGemm::F64(r) => r.dispatch(mem, stream),
            AnyGemm::F16(r) => r.dispatch(mem, stream),
            AnyGemm::Bf16(r) => r.dispatch(mem, stream),
        }
    }
}

/// Strided-batched matrix product of any element type.
pub enum AnyGemmStridedBatched {
    F32(GemmStridedBatchedRequest<F32>),
    F64(GemmStridedBatchedRequest<F64>),
    F16(GemmStridedBatchedRequest<F16>),
    Bf16(GemmStridedBatchedRequest<Bf16>),
}

impl BlasDispatch for AnyGemmStridedBatched {
    open spec fn spec_op_name(&self) -> Seq<char> {
        match self {
            AnyGemmStridedBatched::F32(r) => r.spec_op_name(),
            AnyGemmStridedBatched::F64(r) => r.spec_op_name(),
            AnyGemmStridedBatched::F16(r) => r.spec_op_name(),
            AnyGemmStridedBatched::Bf16(r) => r.spec_op_name(),
        }
    }

    open spec fn spec_dtype_name(&self) -> Seq<char> {
        match self {
            AnyGemmStridedBatched::F32(r) => r.spec_dtype_name(),
            AnyGemmStridedBatched::F64(r) => r.spec_dtype_name(),
            AnyGemmStridedBatched::F16(r) => r.spec_dtype_name(),
            AnyGemmStridedBatched::Bf16(r) => r.spec_dtype_name(),
        }
    }

    open spec fn dispatch_plan(&self, m: MemoryView) -> Result<BlasCall, ErrorView> {
        match self {
            AnyGemmStridedBatched::F32(r) => r.dispatch_plan(m),
            AnyGemmStridedBatched::F64(r) => r.dispatch_plan(m),
            AnyGemmStridedBatched::F16(r) => r.dispatch_plan(m),
            AnyGemmStridedBatched::Bf16(r) => r.dispatch_plan(m),
        }
    }

    open spec fn dispatch_written(&self, m: MemoryView, stream: u64) -> MemoryView {
        match self {
            AnyGemmStridedBatched::F32(r) => r.dispatch_written(m, stream),
            AnyGemmStridedBatched::F64(r) => r.dispatch_written(m, stream),
            AnyGemmStridedBatched::F16(r) => r.dispatch_written(m, stream),
            AnyGemmStridedBatched::Bf16(r) => r.dispatch_written(m, stream),
        }
    }

    open spec fn buffers_current(&self, m: MemoryView) -> bool {
        match self {
            AnyGemmStridedBatched::F32(r) => r.buffers_current(m),
            AnyGemmStridedBatched::F64(r) => r.buffers_current(m),
            AnyGemmStridedBatched::F16(r) => r.buffers_current(m),
            AnyGemmStridedBatched::Bf16(r) => r.buffers_current(m),
        }
    }

    open spec fn owns_targets(&self, m: MemoryView) -> bool {
        match self {
            AnyGemmStridedBatched::F32(r) => r.owns_targets(m),
            AnyGemmStridedBatched::F64(r) => r.owns_targets(m),
            AnyGemmStridedBatched::F16(r) => r.owns_targets(m),
            AnyGemmStridedBatched::Bf16(r) => r.owns_targets(m),
        }
    }

    proof fn law_dispatch_iff(&self, m: MemoryView) {
        match self {
            AnyGemmStridedBatched::F32(r) => r.law_dispatch_iff(m),
            AnyGemmStridedBatched::F64(r) => r.law_dispatch_iff(m),
            AnyGemmStridedBatched::F16(r) => r.law_dispatch_iff(m),
            AnyGemmStridedBatched::Bf16(r) => r.law_dispatch_iff(m),
        }
    }

    fn op_name(&self) -> (s: &'static str) {
        match self {
            AnyGemmStridedBatched::F32(r) => r.op_name(),
            AnyGemmStridedBatched::F64(r) => r.op_name(),
            AnyGemmStridedBatched::F16(r) => r.op_name(),
            AnyGemmStridedBatched::Bf16(r) => r.op_name(),
        }
    }

    fn dtype_name(&self) -> (s: &'static str) {
        match self {
            AnyGemmStridedBatched::F32(r) => r.dtype_name(),
            AnyGemmStridedBatched::F64(r) => r.dtype_name(),
            AnyGemmStridedBatched::F16(r) => r.dtype_name(),
            AnyGemmStridedBatched::Bf16(r) => r.dtype_name(),
        }
    }

    fn dispatch(&self, mem: &mut MemoryTable, stream: u64) -> (r: Result<BlasCall, GpuError>) {
        match self {
            AnyGemmStridedBatched::F32(r) => r.dispatch(mem, stream),
            AnyGemmStridedBatched::F64(r) => r.dispatch(mem, stream),
            AnyGemmStridedBatched::F16(r) => r.dispatch(mem, stream),
            AnyGemmStridedBatched::Bf16(r) => r.dispatch(mem, stream),
        }
    }
}

/// Level-1 request of any kind and element type.
pub enum AnyL1 {
    AxpyF32(AxpyRequest<F32>),
    AxpyF64(AxpyRequest<F64>),
    AxpyF16(AxpyRequest<F16>),
    AxpyBf16(AxpyRequest<Bf16>),
    ScalF32(ScalRequest<F32>),
    ScalF64(ScalRequest<F64>),
    ScalF16(ScalRequest<F16>),
    ScalBf16(ScalRequest<Bf16>),
    Nrm2F32(Nrm2Request<F32>),
    Nrm2F64(Nrm2Request<F64>),
    DotF32(DotRequest<F32>),
    DotF64(DotRequest<F64>),
    AsumF32(AsumRequest<F32>),
    AsumF64(AsumRequest<F64>),
    IamaxF32(IamaxRequest<F32>),
    IamaxF64(IamaxRequest<F64>),
    IaminF32(IaminRequest<F32>),
    IaminF64(IaminRequest<F64>),
    CopyF32(CopyRequest<F32>),
    CopyF64(CopyRequest<F64>),
    SwapF32(SwapRequest<F32>),
    SwapF64(SwapRequest<F64>),
    RotF32(RotRequest<F32>),
    RotF64(RotRequest<F64>),
}

impl BlasDispatch for AnyL1 {
    open spec fn spec_op_name(&self) -> Seq<char> {
        match self {
            AnyL1::AxpyF32(r) => r.spec_op_name(),
            AnyL1::AxpyF64(r) => r.spec_op_name(),
            AnyL1::AxpyF16(r) => r.spec_op_name(),
            AnyL1::AxpyBf16(r) => r.spec_op_name(),
            AnyL1::ScalF32(r) => r.spec_op_name(),
            AnyL1::ScalF64(r) => r.spec_op_name(),
            AnyL1::ScalF16(r) => r.spec_op_name(),
            AnyL1::ScalBf16(r) => r.spec_op_name(),
            AnyL1::Nrm2F32(r) => r.spec_op_name(),
            AnyL1::Nrm2F64(r) => r.spec_op_name(),
            AnyL1::DotF32(r) => r.spec_op_name(),
            AnyL1::DotF64(r) => r.spec_op_name(),
            AnyL1::AsumF32(r) => r.spec_op_name(),
            AnyL1::AsumF64(r) => r.spec_op_name(),
            AnyL1::IamaxF32(r) => r.spec_op_name(),
            AnyL1::IamaxF64(r) => r.spec_op_name(),
            AnyL1::IaminF32(r) => r.spec_op_name(),
            AnyL1::IaminF64(r) => r.spec_op_name(),
            AnyL1::CopyF32(r) => r.spec_op_name(),
            AnyL1::CopyF64(r) => r.spec_op_name(),
            AnyL1::SwapF32(r) => r.spec_op_name(),
            AnyL1::SwapF64(r) => r.spec_op_name(),
            AnyL1::RotF32(r) => r.spec_op_name(),
            AnyL1::RotF64(r) => r.spec_op_name(),
        }
    }

    open spec fn spec_dtype_name(&self) -> Seq<char> {
        match self {
            AnyL1::AxpyF32(r) => r.spec_dtype_name(),
            AnyL1::AxpyF64(r) => r.spec_dtype_name(),
            AnyL1::AxpyF16(r) => r.spec_dtype_name(),
            AnyL1::AxpyBf16(r) => r.spec_dtype_name(),
            AnyL1::ScalF32(r) => r.spec_dtype_name(),
            AnyL1::ScalF64(r) => r.spec_dtype_name(),
            AnyL1::ScalF16(r) => r.spec_dtype_name(),
            AnyL1::ScalBf16(r) => r.spec_dtype_name(),
            AnyL1::Nrm2F32(r) => r.spec_dtype_name(),
            AnyL1::Nrm2F64(r) => r.spec_dtype_name(),
            AnyL1::DotF32(r) => r.spec_dtype_name(),
            AnyL1::DotF64(r) => r.spec_dtype_name(),
            AnyL1::AsumF32(r) => r.spec_dtype_name(),
            AnyL1::AsumF64(r) => r.spec_dtype_name(),
            AnyL1::IamaxF32(r) => r.spec_dtype_name(),
            AnyL1::IamaxF64(r) => r.spec_dtype_name(),
            AnyL1::IaminF32(r) => r.spec_dtype_name(),
            AnyL1::IaminF64(r) => r.spec_dtype_name(),
            AnyL1::CopyF32(r) => r.spec_dtype_name(),
            AnyL1::CopyF64(r) => r.spec_dtype_name(),
            AnyL1::SwapF32(r) => r.spec_dtype_name(),
            AnyL1::SwapF64(r) => r.spec_dtype_name(),
            AnyL1::RotF32(r) => r.spec_dtype_name(),
            AnyL1::RotF64(r) => r.spec_dtype_name(),
        }
    }

    open spec fn dispatch_plan(&self, m: MemoryView) -> Result<BlasCall, ErrorView> {
        match self {
            AnyL1::AxpyF32(r) => r.dispatch_plan(m),
            AnyL1::AxpyF64(r) => r.dispatch_plan(m),
            AnyL1::AxpyF16(r) => r.dispatch_plan(m),
            AnyL1::AxpyBf16(r) => r.dispatch_plan(m),
            AnyL1::ScalF32(r) => r.dispatch_plan(m),
            AnyL1::ScalF64(r) => r.dispatch_plan(m),
            AnyL1::ScalF16(r) => r.dispatch_plan(m),
            AnyL1::ScalBf16(r) => r.dispatch_plan(m),
            AnyL1::Nrm2F32(r) => r.dispatch_plan(m),
            AnyL1::Nrm2F64(r) => r.dispatch_plan(m),
            AnyL1::DotF32(r) => r.dispatch_plan(m),
            AnyL1::DotF64(r) => r.dispatch_plan(m),
            AnyL1::AsumF32(r) => r.dispatch_plan(m),
            AnyL1::AsumF64(r) => r.dispatch_plan(m),
            AnyL1::IamaxF32(r) => r.dispatch_plan(m),
            AnyL1::IamaxF64(r) => r.dispatch_plan(m),
            AnyL1::IaminF32(r) => r.dispatch_plan(m),
            AnyL1::IaminF64(r) => r.dispatch_plan(m),
            AnyL1::CopyF32(r) => r.dispatch_plan(m),
            AnyL1::CopyF64(r) => r.dispatch_plan(m),
            AnyL1::SwapF32(r) => r.dispatch_plan(m),
            AnyL1::SwapF64(r) => r.dispatch_plan(m),
            AnyL1::RotF32(r) => r.dispatch_plan(m),
            AnyL1::RotF64(r) => r.dispatch_plan(m),
        }
    }

    open spec fn dispatch_written(&self, m: MemoryView, stream: u64) -> MemoryView {
        match self {
            AnyL1::AxpyF32(r) => r.dispatch_written(m, stream),
            AnyL1::AxpyF64(r) => r.dispatch_written(m, stream),
            AnyL1::AxpyF16(r) => r.dispatch_written(m, stream),
            AnyL1::AxpyBf16(r) => r.dispatch_written(m, stream),
            AnyL1::ScalF32(r) => r.dispatch_written(m, stream),
            AnyL1::ScalF64(r) => r.dispatch_written(m, stream),
            AnyL1::ScalF16(r) => r.dispatch_written(m, stream),
            AnyL1::ScalBf16(r) => r.dispatch_written(m, stream),
            AnyL1::Nrm2F32(r) => r.dispatch_written(m, stream),
            AnyL1::Nrm2F64(r) => r.dispatch_written(m, stream),
            AnyL1::DotF32(r) => r.dispatch_written(m, stream),
            AnyL1::DotF64(r) => r.dispatch_written(m, stream),
            AnyL1::AsumF32(r) => r.dispatch_written(m, stream),
            AnyL1::AsumF64(r) => r.dispatch_written(m, stream),
            AnyL1::IamaxF32(r) => r.dispatch_written(m, stream),
            AnyL1::IamaxF64(r) => r.dispatch_written(m, stream),
            AnyL1::IaminF32(r) => r.dispatch_written(m, stream),
            AnyL1::IaminF64(r) => r.dispatch_written(m, stream),
            AnyL1::CopyF32(r) => r.dispatch_written(m, stream),
            AnyL1::CopyF64(r) => r.dispatch_written(m, stream),
            AnyL1::SwapF32(r) => r.dispatch_written(m, stream),
            AnyL1::SwapF64(r) => r.dispatch_written(m, stream),
            AnyL1::RotF32(r) => r.dispatch_written(m, stream),
            AnyL1::RotF64(r) => r.dispatch_written(m, stream),
        }
    }

    open spec fn buffers_current(&self, m: MemoryView) -> bool {
        match self {
            AnyL1::AxpyF32(r) => r.buffers_current(m),
            AnyL1::AxpyF64(r) => r.buffers_current(m),
            AnyL1::AxpyF16(r) => r.buffers_current(m),
            AnyL1::AxpyBf16(r) => r.buffers_current(m),
            AnyL1::ScalF32(r) => r.buffers_current(m),
            AnyL1::ScalF64(r) => r.buffers_current(m),
            AnyL1::ScalF16(r) => r.buffers_current(m),
            AnyL1::ScalBf16(r) => r.buffers_current(m),
            AnyL1::Nrm2F32(r) => r.buffers_current(m),
            AnyL1::Nrm2F64(r) => r.buffers_current(m),
            AnyL1::DotF32(r) => r.buffers_current(m),
            AnyL1::DotF64(r) => r.buffers_current(m),
            AnyL1::AsumF32(r) => r.buffers_current(m),
            AnyL1::AsumF64(r) => r.buffers_current(m),
            AnyL1::IamaxF32(r) => r.buffers_current(m),
            AnyL1::IamaxF64(r) => r.buffers_current(m),
            AnyL1::IaminF32(r) => r.buffers_current(m),
            AnyL1::IaminF64(r) => r.buffers_current(m),
            AnyL1::CopyF32(r) => r.buffers_current(m),
            AnyL1::CopyF64(r) => r.buffers_current(m),
            AnyL1::SwapF32(r) => r.buffers_current(m),
            AnyL1::SwapF64(r) => r.buffers_current(m),
            AnyL1::RotF32(r) => r.buffers_current(m),
            AnyL1::RotF64(r) => r.buffers_current(m),
        }
    }

    open spec fn owns_targets(&self, m: MemoryView) -> bool {
        match self {
            AnyL1::AxpyF32(r) => r.owns_targets(m),
            AnyL1::AxpyF64(r) => r.owns_targets(m),
            AnyL1::AxpyF16(r) => r.owns_targets(m),
            AnyL1::AxpyBf16(r) => r.owns_targets(m),
            AnyL1::ScalF32(r) => r.owns_targets(m),
            AnyL1::ScalF64(r) => r.owns_targets(m),
            AnyL1::ScalF16(r) => r.owns_targets(m),
            AnyL1::ScalBf16(r) => r.owns_targets(m),
            AnyL1::Nrm2F32(r) => r.owns_targets(m),
            AnyL1::Nrm2F64(r) => r.owns_targets(m),
            AnyL1::DotF32(r) => r.owns_targets(m),
            AnyL1::DotF64(r) => r.owns_targets(m),
            AnyL1::AsumF32(r) => r.owns_targets(m),
            AnyL1::AsumF64(r) => r.owns_targets(m),
            AnyL1::IamaxF32(r) => r.owns_targets(m),
            AnyL1::IamaxF64(r) => r.owns_targets(m),
            AnyL1::IaminF32(r) => r.owns_targets(m),
            AnyL1::IaminF64(r) => r.owns_targets(m),
            AnyL1::CopyF32(r) => r.owns_targets(m),
            AnyL1::CopyF64(r) => r.owns_targets(m),
            AnyL1::SwapF32(r) => r.owns_targets(m),
            AnyL1::SwapF64(r) => r.owns_targets(m),
            AnyL1::RotF32(r) => r.owns_targets(m),
            AnyL1::RotF64(r) => r.owns_targets(m),
        }
    }

    proof fn law_dispatch_iff(&self, m: MemoryView) {
        match self {
            AnyL1::AxpyF32(r) => r.law_dispatch_iff(m),
            AnyL1::AxpyF64(r) => r.law_dispatch_iff(m),
            AnyL1::AxpyF16(r) => r.law_dispatch_iff(m),
            AnyL1::AxpyBf16(r) => r.law_dispatch_iff(m),
            AnyL1::ScalF32(r) => r.law_dispatch_iff(m),
            AnyL1::ScalF64(r) => r.law_dispatch_iff(m),
            AnyL1::ScalF16(r) => r.law_dispatch_iff(m),
            AnyL1::ScalBf16(r) => r.law_dispatch_iff(m),
            AnyL1::Nrm2F32(r) => r.law_dispatch_iff(m),
            AnyL1::Nrm2F64(r) => r.law_dispatch_iff(m),
            AnyL1::DotF32(r) => r.law_dispatch_iff(m),
            AnyL1::DotF64(r) => r.law_dispatch_iff(m),
            AnyL1::AsumF32(r) => r.law_dispatch_iff(m),
            AnyL1::AsumF64(r) => r.law_dispatch_iff(m),
            AnyL1::IamaxF32(r) => r.law_dispatch_iff(m),
            AnyL1::IamaxF64(r) => r.law_dispatch_iff(m),
            AnyL1::IaminF32(r) => r.law_dispatch_iff(m),
            AnyL1::IaminF64(r) => r.law_dispatch_iff(m),
            AnyL1::CopyF32(r) => r.law_dispatch_iff(m),
            AnyL1::CopyF64(r) => r.law_dispatch_iff(m),
            AnyL1::SwapF32(r) => r.law_dispatch_iff(m),
            AnyL1::SwapF64(r) => r.law_dispatch_iff(m),
            AnyL1::RotF32(r) => r.law_dispatch_iff(m),
            AnyL1::RotF64(r) => r.law_dispatch_iff(m),
        }
    }

    fn op_name(&self) -> (s: &'static str) {
        match self {
            AnyL1::AxpyF32(r) => r.op_name(),
            AnyL1::AxpyF64(r) => r.op_name(),
            AnyL1::AxpyF16(r) => r.op_name(),
            AnyL1::AxpyBf16(r) => r.op_name(),
            AnyL1::ScalF32(r) => r.op_name(),
            AnyL1::ScalF64(r) => r.op_name(),
            AnyL1::ScalF16(r) => r.op_name(),
            AnyL1::ScalBf16(r) => r.op_name(),
            AnyL1::Nrm2F32(r) => r.op_name(),
            AnyL1::Nrm2F64(r) => r.op_name(),
            AnyL1::DotF32(r) => r.op_name(),
            AnyL1::DotF64(r) => r.op_name(),
            AnyL1::AsumF32(r) => r.op_name(),
            AnyL1::AsumF64(r) => r.op_name(),
            AnyL1::IamaxF32(r) => r.op_name(),
            AnyL1::IamaxF64(r) => r.op_name(),
            AnyL1::IaminF32(r) => r.op_name(),
            AnyL1::IaminF64(r) => r.op_name(),
            AnyL1::CopyF32(r) => r.op_name(),
            AnyL1::CopyF64(r) => r.op_name(),
            AnyL1::SwapF32(r) => r.op_name(),
            AnyL1::SwapF64(r) => r.op_name(),
            AnyL1::RotF32(r) => r.op_name(),
            AnyL1::RotF64(r) => r.op_name(),
        }
    }

    fn dtype_name(&self) -> (s: &'static str) {
        match self {
            AnyL1::AxpyF32(r) => r.dtype_name(),
            AnyL1::AxpyF64(r) => r.dtype_name(),
            AnyL1::AxpyF16(r) => r.dtype_name(),
            AnyL1::AxpyBf16(r) => r.dtype_name(),
            AnyL1::ScalF32(r) => r.dtype_name(),
            AnyL1::ScalF64(r) => r.dtype_name(),
            AnyL1::ScalF16(r) => r.dtype_name(),
            AnyL1::ScalBf16(r) => r.dtype_name(),
            AnyL1::Nrm2F32(r) => r.dtype_name(),
            AnyL1::Nrm2F64(r) => r.dtype_name(),
            AnyL1::DotF32(r) => r.dtype_name(),
            AnyL1::DotF64(r) => r.dtype_name(),
            AnyL1::AsumF32(r) => r.dtype_name(),
            AnyL1::AsumF64(r) => r.dtype_name(),
            AnyL1::IamaxF32(r) => r.dtype_name(),
            AnyL1::IamaxF64(r) => r.dtype_name(),
            AnyL1::IaminF32(r) => r.dtype_name(),
            AnyL1::IaminF64(r) => r.dtype_name(),
            AnyL1::CopyF32(r) => r.dtype_name(),
            AnyL1::CopyF64(r) => r.dtype_name(),
            AnyL1::SwapF32(r) => r.dtype_name(),
            AnyL1::SwapF64(r) => r.dtype_name(),
            AnyL1::RotF32(r) => r.dtype_name(),
            AnyL1::RotF64(r) => r.dtype_name(),
        }
    }

    fn dispatch(&self, mem: &mut MemoryTable, stream: u64) -> (r: Result<BlasCall, GpuError>) {
        match self {
            AnyL1::AxpyF32(r) => r.dispatch(mem, stream),
            AnyL1::AxpyF64(r) => r.dispatch(mem, stream),
            AnyL1::AxpyF16(r) => r.dispatch(mem, stream),
            AnyL1::AxpyBf16(r) => r.dispatch(mem, stream),
            AnyL1::ScalF32(r) => r.dispatch(mem, stream),
            AnyL1::ScalF64(r) => r.dispatch(mem, stream),
            AnyL1::ScalF16(r) => r.dispatch(mem, stream),
            AnyL1::ScalBf16(r) => r.dispatch(mem, stream),
            AnyL1::Nrm2F32(r) => r.dispatch(mem, stream),
            AnyL1::Nrm2F64(r) => r.dispatch(mem, stream),
            AnyL1::DotF32(r) => r.dispatch(mem, stream),
            AnyL1::DotF64(r) => r.dispatch(mem, stream),
            AnyL1::AsumF32(r) => r.dispatch(mem, stream),
            AnyL1::AsumF64(r) => r.dispatch(mem, stream),
            AnyL1::IamaxF32(r) => r.dispatch(mem, stream),
            AnyL1::IamaxF64(r) => r.dispatch(mem, stream),
            AnyL1::IaminF32(r) => r.dispatch(mem, stream),
            AnyL1::IaminF64(r) => r.dispatch(mem, stream),
            AnyL1::CopyF32(r) => r.dispatch(mem, stream),
            AnyL1::CopyF64(r) => r.dispatch(mem, stream),
            AnyL1::SwapF32(r) => r.dispatch(mem, stream),
            AnyL1::SwapF64(r) => r.dispatch(mem, stream),
            AnyL1::RotF32(r) => r.dispatch(mem, stream),
            AnyL1::RotF64(r) => r.dispatch(mem, stream),
        }
    }
}

/// Level-2 request of any kind and element type.
pub enum AnyL2 {
    GemvF32(GemvRequest<F32>),
    GemvF64(GemvRequest<F64>),
    GerF32(GerRequest<F32>),
    GerF64(GerRequest<F64>),
}

impl BlasDispatch for AnyL2 {
    open spec fn spec_op_name(&self) -> Seq<char> {
        match self {
            AnyL2::GemvF32(r) => r.spec_op_name(),
            AnyL2::GemvF64(r) => r.spec_op_name(),
            AnyL2::GerF32(r) => r.spec_op_name(),
            AnyL2::GerF64(r) => r.spec_op_name(),
        }
    }

    open spec fn spec_dtype_name(&self) -> Seq<char> {
        match self {
            AnyL2::GemvF32(r) => r.spec_dtype_name(),
            AnyL2::GemvF64(r) => r.spec_dtype_name(),
            AnyL2::GerF32(r) => r.spec_dtype_name(),
            AnyL2::GerF64(r) => r.spec_dtype_name(),
        }
    }

    open spec fn dispatch_plan(&self, m: MemoryView) -> Result<BlasCall, ErrorView> {
        match self {
            AnyL2::GemvF32(r) => r.dispatch_plan(m),
            AnyL2::GemvF64(r) => r.dispatch_plan(m),
            AnyL2::GerF32(r) => r.dispatch_plan(m),
            AnyL2::GerF64(r) => r.dispatch_plan(m),
        }
    }

    open spec fn dispatch_written(&self, m: MemoryView, stream: u64) -> MemoryView {
        match self {
            AnyL2::GemvF32(r) => r.dispatch_written(m, stream),
            AnyL2::GemvF64(r) => r.dispatch_written(m, stream),
            AnyL2::GerF32(r) => r.dispatch_written(m, stream),
            AnyL2::GerF64(r) => r.dispatch_written(m, stream),
        }
    }

    open spec fn buffers_current(&self, m: MemoryView) -> bool {
        match self {
            AnyL2::GemvF32(r) => r.buffers_current(m),
            AnyL2::GemvF64(r) => r.buffers_current(m),
            AnyL2::GerF32(r) => r.buffers_current(m),
            AnyL2::GerF64(r) => r.buffers_current(m),
        }
    }

    open spec fn owns_targets(&self, m: MemoryView) -> bool {
        match self {
            AnyL2::GemvF32(r) => r.owns_targets(m),
            AnyL2::GemvF64(r) => r.owns_targets(m),
            AnyL2::GerF32(r) => r.owns_targets(m),
            AnyL2::GerF64(r) => r.owns_targets(m),
        }
    }

    proof fn law_dispatch_iff(&self, m: MemoryView) {
        match self {
            AnyL2::GemvF32(r) => r.law_dispatch_iff(m),
            AnyL2::GemvF64(r) => r.law_dispatch_iff(m),
            AnyL2::GerF32(r) => r.law_dispatch_iff(m),
            AnyL2::GerF64(r) => r.law_dispatch_iff(m),
        }
    }

    fn op_name(&self) -> (s: &'static str) {
        match self {
            AnyL2::GemvF32(r) => r.op_name(),
            AnyL2::GemvF64(r) => r.op_name(),
            AnyL2::GerF32(r) => r.op_name(),
            AnyL2::GerF64(r) => r.op_name(),
        }
    }

    fn dtype_name(&self) -> (s: &'static str) {
        match self {
            AnyL2::GemvF32(r) => r.dtype_name(),
            AnyL2::GemvF64(r) => r.dtype_name(),
            AnyL2::GerF32(r) => r.dtype_name(),
            AnyL2::GerF64(r) => r.dtype_name(),
        }
    }

    fn dispatch(&self, mem: &mut MemoryTable, stream: u64) -> (r: Result<BlasCall, GpuError>) {
        match self {
            AnyL2::GemvF32(r) => r.dispatch(mem, stream),
            AnyL2::GemvF64(r) => r.dispatch(mem, stream),
            AnyL2::GerF32(r) => r.dispatch(mem, stream),
            AnyL2::GerF64(r) => r.dispatch(mem, stream),
        }
    }
}

/// Level-3 request of any kind and element type.
pub enum AnyL3 {
    GeamF32(GeamRequest<F32>),
    GeamF64(GeamRequest<F64>),
    SyrkF32(SyrkRequest<F32>),
    SyrkF64(SyrkRequest<F64>),
    TrsmF32(TrsmRequest<F32>),
    TrsmF64(TrsmRequest<F64>),
}

impl BlasDispatch for AnyL3 {
    open spec fn spec_op_name(&self) -> Seq<char> {
        match self {
            AnyL3::GeamF32(r) => r.spec_op_name(),
            AnyL3::GeamF64(r) => r.spec_op_name(),
            AnyL3::SyrkF32(r) => r.spec_op_name(),
            AnyL3::SyrkF64(r) => r.spec_op_name(),
            AnyL3::TrsmF32(r) => r.spec_op_name(),
            AnyL3::TrsmF64(r) => r.spec_op_name(),
        }
    }

    open spec fn spec_dtype_name(&self) -> Seq<char> {
        match self {
            AnyL3::GeamF32(r) => r.spec_dtype_name(),
            AnyL3::GeamF64(r) => r.spec_dtype_name(),
            AnyL3::SyrkF32(r) => r.spec_dtype_name(),
            AnyL3::SyrkF64(r) => r.spec_dtype_name(),
            AnyL3::TrsmF32(r) => r.spec_dtype_name(),
            AnyL3::TrsmF64(r) => r.spec_dtype_name(),
        }
    }

    open spec fn dispatch_plan(&self, m: MemoryView) -> Result<BlasCall, ErrorView> {
        match self {
            AnyL3::GeamF32(r) => r.dispatch_plan(m),
            AnyL3::GeamF64(r) => r.dispatch_plan(m),
            AnyL3::SyrkF32(r) => r.dispatch_plan(m),
            AnyL3::SyrkF64(r) => r.dispatch_plan(m),
            AnyL3::TrsmF32(r) => r.dispatch_plan(m),
            AnyL3::TrsmF64(r) => r.dispatch_plan(m),
        }
    }

    open spec fn dispatch_written(&self, m: MemoryView, stream: u64) -> MemoryView {
        match self {
            AnyL3::GeamF32(r) => r.dispatch_written(m, stream),
            AnyL3::GeamF64(r) => r.dispatch_written(m, stream),
            AnyL3::SyrkF32(r) => r.dispatch_written(m, stream),
            AnyL3::SyrkF64(r) => r.dispatch_written(m, stream),
            AnyL3::TrsmF32(r) => r.dispatch_written(m, stream),
            AnyL3::TrsmF64(r) => r.dispatch_written(m, stream),
        }
    }

    open spec fn buffers_current(&self, m: MemoryView) -> bool {
        match self {
            AnyL3::GeamF32(r) => r.buffers_current(m),
            AnyL3::GeamF64(r) => r.buffers_current(m),
            AnyL3::SyrkF32(r) => r.buffers_current(m),
            AnyL3::SyrkF64(r) => r.buffers_current(m),
            AnyL3::TrsmF32(r) => r.buffers_current(m),
            AnyL3::TrsmF64(r) => r.buffers_current(m),
        }
    }

    open spec fn owns_targets(&self, m: MemoryView) -> bool {
        match self {
            AnyL3::GeamF32(r) => r.owns_targets(m),
            AnyL3::GeamF64(r) => r.owns_targets(m),
            AnyL3::SyrkF32(r) => r.owns_targets(m),
            AnyL3::SyrkF64(r) => r.owns_targets(m),
            AnyL3::TrsmF32(r) => r.owns_targets(m),
            AnyL3::TrsmF64(r) => r.owns_targets(m),
        }
    }

    proof fn law_dispatch_iff(&self, m: MemoryView) {
        match self {
            AnyL3::GeamF32(r) => r.law_dispatch_iff(m),
            AnyL3::GeamF64(r) => r.law_dispatch_iff(m),
            AnyL3::SyrkF32(r) => r.law_dispatch_iff(m),
            AnyL3::SyrkF64(r) => r.law_dispatch_iff(m),
            AnyL3::TrsmF32(r) => r.law_dispatch_iff(m),
            AnyL3::TrsmF64(r) => r.law_dispatch_iff(m),
        }
    }

    fn op_name(&self) -> (s: &'static str) {
        match self {
            AnyL3::GeamF32(r) => r.op_name(),
            AnyL3::GeamF64(r) => r.op_name(),
            AnyL3::SyrkF32(r) => r.op_name(),
            AnyL3::SyrkF64(r) => r.op_name(),
            AnyL3::TrsmF32(r) => r.op_name(),
            AnyL3::TrsmF64(r) => r.op_name(),
        }
    }

    fn dtype_name(&self) -> (s: &'static str) {
        match self {
            AnyL3::GeamF32(r) => r.dtype_name(),
            AnyL3::GeamF64(r) => r.dtype_name(),
            AnyL3::SyrkF32(r) => r.dtype_name(),
            AnyL3::SyrkF64(r) => r.dtype_name(),
            AnyL3::TrsmF32(r) => r.dtype_name(),
            AnyL3::TrsmF64(r) => r.dtype_name(),
        }
    }

    fn dispatch(&self, mem: &mut MemoryTable, stream: u64) -> (r: Result<BlasCall, GpuError>) {
        match self {
            AnyL3::GeamF32(r) => r.dispatch(mem, stream),
            AnyL3::GeamF64(r) => r.dispatch(mem, stream),
            AnyL3::SyrkF32(r) => r.dispatch(mem, stream),
            AnyL3::SyrkF64(r) => r.dispatch(mem, stream),
            AnyL3::TrsmF32(r) => r.dispatch(mem, stream),
            AnyL3::TrsmF64(r) => r.dispatch(mem, stream),
        }
    }
}

/// A product in its tagged form is the product that it was made from.
pub proof fn law_any_gemm_is_its_request(any: AnyGemm, m: MemoryView, stream: u64)
    ensures
        match any {
            AnyGemm::F32(r) => {
                &&& any.dispatch_plan(m) == r.spec_plan(m)
                &&& any.dispatch_written(m, stream) == r.spec_written(m, stream)
                &&& any.spec_op_name() == r.spec_op_name()
                &&& any.spec_dtype_name() == r.spec_dtype_name()
            },
            AnyGemm::F64(r) => {
                &&& any.dispatch_plan(m) == r.spec_plan(m)
                &&& any.dispatch_written(m, stream) == r.spec_written(m, stream)
                &&& any.spec_op_name() == r.spec_op_name()
                &&& any.spec_dtype_name() == r.spec_dtype_name()
            },
            AnyGemm::F16(r) => {
                &&& any.dispatch_plan(m) == r.spec_plan(m)
                &&& any.dispatch_written(m, stream) == r.spec_written(m, stream)
                &&& any.spec_op_name() == r.spec_op_name()
                &&& any.spec_dtype_name() == r.spec_dtype_name()
            },
            AnyGemm::Bf16(r) => {
                &&& any.dispatch_plan(m) == r.spec_plan(m)
                &&& any.dispatch_written(m, stream) == r.spec_written(m, stream)
                &&& any.spec_op_name() == r.spec_op_name()
                &&& any.spec_dtype_name() == r.spec_dtype_name()
            },
        },
{
}

/// A batch in its tagged form is the batch that it was made from.
pub proof fn law_any_batched_is_its_request(any: AnyGemmStridedBatched, m: MemoryView, stream: u64)
    ensures
        match any {
            AnyGemmStridedBatched::F32(r) => {
                &&& any.dispatch_plan(m) == r.spec_plan(m)
                &&& any.dispatch_written(m, stream) == r.spec_written(m, stream)
                &&& any.spec_op_name() == r.spec_op_name()
                &&& any.spec_dtype_name() == r.spec_dtype_name()
            },
            AnyGemmStridedBatched::F64(r) => {
                &&& any.dispatch_plan(m) == r.spec_plan(m)
                &&& any.dispatch_written(m, stream) == r.spec_written(m, stream)
                &&& any.spec_op_name() == r.spec_op_name()
                &&& any.spec_dtype_name() == r.spec_dtype_name()
            },
            AnyGemmStridedBatched::F16(r) => {
                &&& any.dispatch_plan(m) == r.spec_plan(m)
                &&& any.dispatch_written(m, stream) == r.spec_written(m, stream)
                &&& any.spec_op_name() == r.spec_op_name()
                &&& any.spec_dtype_name() == r.spec_dtype_name()
            },
            AnyGemmStridedBatched::Bf16(r) => {
                &&& any.dispatch_plan(m) == r.spec_plan(m)
                &&& any.dispatch_written(m, stream) == r.spec_written(m, stream)
                &&& any.spec_op_name() == r.spec_op_name()
                &&& any.spec_dtype_name() == r.spec_dtype_name()
            },
        },
{
}

/// A level-1 request in its tagged form is the request that it was made from.
pub proof fn law_any_l1_is_its_request(any: AnyL1, m: MemoryView, stream: u64)
    ensures
        match any {
            AnyL1::AxpyF32(r) => {
                &&& any.dispatch_plan(m) == r.spec_plan(m)
                &&& any.dispatch_written(m, stream) == r.spec_written(m, stream)
                &&& any.spec_op_name() == r.spec_op_name()
                &&& any.spec_dtype_name() == r.spec_dtype_name()
            },
            AnyL1::AxpyF64(r) => {
                &&& any.dispatch_plan(m) == r.spec_plan(m)
                &&& any.dispatch_written(m, stream) == r.spec_written(m, stream)
                &&& any.spec_op_name() == r.spec_op_name()
                &&& any.spec_dtype_name() == r.spec_dtype_name()
            },
            AnyL1::AxpyF16(r) => {
                &&& any.dispatch_plan(m) == r.spec_plan(m)
                &&& any.dispatch_written(m, stream) == r.spec_written(m, stream)
                &&& any.spec_op_name() == r.spec_op_name()
                &&& any.spec_dtype_name() == r.spec_dtype_name()
            },
            AnyL1::AxpyBf16(r) => {
                &&& any.dispatch_plan(m) == r.spec_plan(m)
                &&& any.dispatch_written(m, stream) == r.spec_written(m, stream)
                &&& any.spec_op_name() == r.spec_op_name()
                &&& any.spec_dtype_name() == r.spec_dtype_name()
            },
            AnyL1::ScalF32(r) => {
                &&& any.dispatch_plan(m) == r.spec_plan(m)
                &&& any.dispatch_written(m, stream) == r.spec_written(m, stream)
                &&& any.spec_op_name() == r.spec_op_name()
                &&& any.spec_dtype_name() == r.spec_dtype_name()
            },
            AnyL1::ScalF64(r) => {
                &&& any.dispatch_plan(m) == r.spec_plan(m)
                &&& any.dispatch_written(m, stream) == r.spec_written(m, stream)
                &&& any.spec_op_name() == r.spec_op_name()
                &&& any.spec_dtype_name() == r.spec_dtype_name()
            },
            AnyL1::ScalF16(r) => {
                &&& any.dispatch_plan(m) == r.spec_plan(m)
                &&& any.dispatch_written(m, stream) == r.spec_written(m, stream)
                &&& any.spec_op_name() == r.spec_op_name()
                &&& any.spec_dtype_name() == r.spec_dtype_name()
            },
            AnyL1::ScalBf16(r) => {
                &&& any.dispatch_plan(m) == r.spec_plan(m)
                &&& any.dispatch_written(m, stream) == r.spec_written(m, stream)
                &&& any.spec_op_name() == r.spec_op_name()
                &&& any.spec_dtype_name() == r.spec_dtype_name()
            },
            AnyL1::Nrm2F32(r) => {
                &&& any.dispatch_plan(m) == r.spec_plan(m)
                &&& any.dispatch_written(m, stream) == r.spec_written(m, stream)
                &&& any.spec_op_name() == r.spec_op_name()
                &&& any.spec_dtype_name() == r.spec_dtype_name()
            },
            AnyL1::Nrm2F64(r) => {
                &&& any.dispatch_plan(m) == r.spec_plan(m)
                &&& any.dispatch_written(m, stream) == r.spec_written(m, stream)
                &&& any.spec_op_name() == r.spec_op_name()
                &&& any.spec_dtype_name() == r.spec_dtype_name()
            },
            AnyL1::DotF32(r) => {
                &&& any.dispatch_plan(m) == r.spec_plan(m)
                &&& any.dispatch_written(m, stream) == r.spec_written(m, stream)
                &&& any.spec_op_name() == r.spec_op_name()
                &&& any.spec_dtype_name() == r.spec_dtype_name()
            },
            AnyL1::DotF64(r) => {
                &&& any.dispatch_plan(m) == r.spec_plan(m)
                &&& any.dispatch_written(m, stream) == r.spec_written(m, stream)
                &&& any.spec_op_name() == r.spec_op_name()
                &&& any.spec_dtype_name() == r.spec_dtype_name()
            },
            AnyL1::AsumF32(r) => {
                &&& any.dispatch_plan(m) == r.spec_plan(m)
                &&& any.dispatch_written(m, stream) == r.spec_written(m, stream)
                &&& any.spec_op_name() == r.spec_op_name()
                &&& any.spec_dtype_name() == r.spec_dtype_name()
            },
            AnyL1::AsumF64(r) => {
                &&& any.dispatch_plan(m) == r.spec_plan(m)
                &&& any.dispatch_written(m, stream) == r.spec_written(m, stream)
                &&& any.spec_op_name() == r.spec_op_name()
                &&& any.spec_dtype_name() == r.spec_dtype_name()
            },
            AnyL1::IamaxF32(r) => {
                &&& any.dispatch_plan(m) == r.spec_plan(m)
                &&& any.dispatch_written(m, stream) == r.spec_written(m, stream)
                &&& any.spec_op_name() == r.spec_op_name()
                &&& any.spec_dtype_name() == r.spec_dtype_name()
            },
            AnyL1::IamaxF64(r) => {
                &&& any.dispatch_plan(m) == r.spec_plan(m)
                &&& any.dispatch_written(m, stream) == r.spec_written(m, stream)
                &&& any.spec_op_name() == r.spec_op_name()
                &&& any.spec_dtype_name() == r.spec_dtype_name()
            },
            AnyL1::IaminF32(r) => {
                &&& any.dispatch_plan(m) == r.spec_plan(m)
                &&& any.dispatch_written(m, stream) == r.spec_written(m, stream)
                &&& any.spec_op_name() == r.spec_op_name()
                &&& any.spec_dtype_name() == r.spec_dtype_name()
            },
            AnyL1::IaminF64(r) => {
                &&& any.dispatch_plan(m) == r.spec_plan(m)
                &&& any.dispatch_written(m, stream) == r.spec_written(m, stream)
                &&& any.spec_op_name() == r.spec_op_name()
                &&& any.spec_dtype_name() == r.spec_dtype_name()
            },
            AnyL1::CopyF32(r) => {
                &&& any.dispatch_plan(m) == r.spec_plan(m)
                &&& any.dispatch_written(m, stream) == r.spec_written(m, stream)
                &&& any.spec_op_name() == r.spec_op_name()
                &&& any.spec_dtype_name() == r.spec_dtype_name()
            },
            AnyL1::CopyF64(r) => {
                &&& any.dispatch_plan(m) == r.spec_plan(m)
                &&& any.dispatch_written(m, stream) == r.spec_written(m, stream)
                &&& any.spec_op_name() == r.spec_op_name()
                &&& any.spec_dtype_name() == r.spec_dtype_name()
            },
            AnyL1::SwapF32(r) => {
                &&& any.dispatch_plan(m) == r.spec_plan(m)
                &&& any.dispatch_written(m, stream) == r.spec_written(m, stream)
                &&& any.spec_op_name() == r.spec_op_name()
                &&& any.spec_dtype_name() == r.spec_dtype_name()
            },
            AnyL1::SwapF64(r) => {
                &&& any.dispatch_plan(m) == r.spec_plan(m)
                &&& any.dispatch_written(m, stream) == r.spec_written(m, stream)
                &&& any.spec_op_name() == r.spec_op_name()
                &&& any.spec_dtype_name() == r.spec_dtype_name()
            },
            AnyL1::RotF32(r) => {
                &&& any.dispatch_plan(m) == r.spec_plan(m)
                &&& any.dispatch_written(m, stream) == r.spec_written(m, stream)
                &&& any.spec_op_name() == r.spec_op_name()
                &&& any.spec_dtype_name() == r.spec_dtype_name()
            },
            AnyL1::RotF64(r) => {
                &&& any.dispatch_plan(m) == r.spec_plan(m)
                &&& any.dispatch_written(m, stream) == r.spec_written(m, stream)
                &&& any.spec_op_name() == r.spec_op_name()
                &&& any.spec_dtype_name() == r.spec_dtype_name()
            },
        },
{
}

/// A level-2 request in its tagged form is the request that it was made from.
pub proof fn law_any_l2_is_its_request(any: AnyL2, m: MemoryView, stream: u64)
    ensures
        match any {
            AnyL2::GemvF32(r) => {
                &&& any.dispatch_plan(m) == r.spec_plan(m)
                &&& any.dispatch_written(m, stream) == r.spec_written(m, stream)
                &&& any.spec_op_name() == r.spec_op_name()
                &&& any.spec_dtype_name() == r.spec_dtype_name()
            },
            AnyL2::GemvF64(r) => {
                &&& any.dispatch_plan(m) == r.spec_plan(m)
                &&& any.dispatch_written(m, stream) == r.spec_written(m, stream)
                &&& any.spec_op_name() == r.spec_op_name()
                &&& any.spec_dtype_name() == r.spec_dtype_name()
            },
            AnyL2::GerF32(r) => {
                &&& any.dispatch_plan(m) == r.spec_plan(m)
                &&& any.dispatch_written(m, stream) == r.spec_written(m, stream)
                &&& any.spec_op_name() == r.spec_op_name()
                &&& any.spec_dtype_name() == r.spec_dtype_name()
            },
            AnyL2::GerF64(r) => {
                &&& any.dispatch_plan(m) == r.spec_plan(m)
                &&& any.dispatch_written(m, stream) == r.spec_written(m, stream)
                &&& any.spec_op_name() == r.spec_op_name()
                &&& any.spec_dtype_name() == r.spec_dtype_name()
            },
        },
{
}

/// A level-3 request in its tagged form is the request that it was made from.
pub proof fn law_any_l3_is_its_request(any: AnyL3, m: MemoryView, stream: u64)
    ensures
        match any {
            AnyL3::GeamF32(r) => {
                &&& any.dispatch_plan(m) == r.spec_plan(m)
                &&& any.dispatch_written(m, stream) == r.spec_written(m, stream)
                &&& any.spec_op_name() == r.spec_op_name()
                &&& any.spec_dtype_name() == r.spec_dtype_name()
            },
            AnyL3::GeamF64(r) => {
                &&& any.dispatch_plan(m) == r.spec_plan(m)
                &&& any.dispatch_written(m, stream) == r.spec_written(m, stream)
                &&& any.spec_op_name() == r.spec_op_name()
                &&& any.spec_dtype_name() == r.spec_dtype_name()
            },
            AnyL3::SyrkF32(r) => {
                &&& any.dispatch_plan(m) == r.spec_plan(m)
                &&& any.dispatch_written(m, stream) == r.spec_written(m, stream)
                &&& any.spec_op_name() == r.spec_op_name()
                &&& any.spec_dtype_name() == r.spec_dtype_name()
            },
            AnyL3::SyrkF64(r) => {
                &&& any.dispatch_plan(m) == r.spec_plan(m)
                &&& any.dispatch_written(m, stream) == r.spec_written(m, stream)
                &&& any.spec_op_name() == r.spec_op_name()
                &&& any.spec_dtype_name() == r.spec_dtype_name()
            },
            AnyL3::TrsmF32(r) => {
                &&& any.dispatch_plan(m) == r.spec_plan(m)
                &&& any.dispatch_written(m, stream) == r.spec_written(m, stream)
                &&& any.spec_op_name() == r.spec_op_name()
                &&& any.spec_dtype_name() == r.spec_dtype_name()
            },
            AnyL3::TrsmF64(r) => {
                &&& any.dispatch_plan(m) == r.spec_plan(m)
                &&& any.dispatch_written(m, stream) == r.spec_written(m, stream)
                &&& any.spec_op_name() == r.spec_op_name()
                &&& any.spec_dtype_name() == r.spec_dtype_name()
            },
        },
{
}

} // verus!
