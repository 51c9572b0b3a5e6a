//! `BlasActor`: typed cuBLAS requests and their routing.
//!
//! A request is validated and turned into a [`BlasCall`], the library call
//! with all its arguments. The runtime makes the call on the actor's stream
//! and answers through [`crate::kernel::envelope`].

pub mod actor;
pub mod any;
pub mod gemm;
pub mod gemm_strided_batched;
pub mod l1;
pub mod l2;
pub mod l3;
pub mod meaning;
pub mod scaling;

pub use actor::{BlasAction, BlasActor, BlasInner, BlasMsg};
pub use any::{AnyGemm, AnyGemmStridedBatched, AnyL1, AnyL2, AnyL3};
pub use gemm::GemmRequest;
pub use gemm_strided_batched::GemmStridedBatchedRequest;
pub use l1::{
    AsumRequest, AxpyRequest, CopyRequest, DotRequest, IamaxRequest, IaminRequest, Nrm2Request,
    RotRequest, ScalRequest, SwapRequest,
};
pub use l2::{GemvRequest, GerRequest};
pub use l3::{GeamRequest, SyrkRequest, TrsmRequest};

use vstd::prelude::*;

use crate::dtype::{CudaDataType, CudaDtype, Element, ScalarBits};
use crate::error::{ErrorView, GpuError};
use crate::error;
use crate::gpu_ref::{DeviceSlice, MemoryTable, MemoryView};

verus! {

/// Library tag of the actor's errors.
pub const LIB: &'static str = "cublas";

/// `cublasOperation_t`: how a matrix operand is taken.
#[derive(Debug, Clone, Copy, PartialEq, Eq, Structural)]
pub enum CublasOperation {
    N,
    T,
    C,
}

/// `cublasFillMode_t`: which triangle of a symmetric matrix is stored.
#[derive(Debug, Clone, Copy, PartialEq, Eq, Structural)]
pub enum CublasFillMode {
    Lower,
    Upper,
    Full,
}

/// `cublasSideMode_t`: on which side of the unknown the triangular matrix is.
#[derive(Debug, Clone, Copy, PartialEq, Eq, Structural)]
pub enum CublasSideMode {
    Left,
    Right,
}

/// `cublasDiagType_t`: whether the diagonal is all ones and not stored.
#[derive(Debug, Clone, Copy, PartialEq, Eq, Structural)]
pub enum CublasDiagType {
    NonUnit,
    Unit,
}

/// A host-side scalar argument: its bit pattern and its type.
#[derive(Debug, Clone, Copy, PartialEq, Eq, Structural)]
pub struct Scalar {
    pub bits: u64,
    pub data_type: CudaDataType,
}

/// A vector argument of the extended entry points.
#[derive(Debug, Clone, Copy, PartialEq, Eq, Structural)]
pub struct VectorArg {
    pub ptr: u64,
    pub data_type: CudaDataType,
    pub inc: i32,
}

/// Shape and scalars of a matrix product.
#[derive(Debug, Clone, Copy, PartialEq, Eq, Structural)]
pub struct GemmConfig {
    pub trans_a: CublasOperation,
    pub trans_b: CublasOperation,
    pub m: i32,
    pub n: i32,
    pub k: i32,
    pub alpha: Scalar,
    pub lda: i32,
    pub ldb: i32,
    pub beta: Scalar,
    pub ldc: i32,
}

/// A cuBLAS call with all its arguments. Buffers are device addresses.
#[derive(Debug, Clone, Copy, PartialEq, Eq, Structural)]
#[allow(inconsistent_fields)]
pub enum BlasCall {
    AxpyEx { n: i32, alpha: Scalar, x: VectorArg, y: VectorArg, execution: CudaDataType },
    ScalEx { n: i32, alpha: Scalar, x: VectorArg, execution: CudaDataType },
    Nrm2Ex { n: i32, x: VectorArg, result_type: CudaDataType, execution: CudaDataType },
    DotEx { n: i32, x: VectorArg, y: VectorArg, result_type: CudaDataType, execution: CudaDataType },
    AsumEx { n: i32, x: VectorArg, result_type: CudaDataType, execution: CudaDataType },
    IamaxEx { n: i32, x: VectorArg },
    IaminEx { n: i32, x: VectorArg },
    CopyEx { n: i32, x: VectorArg, y: VectorArg },
    SwapEx { n: i32, x: VectorArg, y: VectorArg },
    RotEx { n: i32, x: VectorArg, y: VectorArg, c: Scalar, s: Scalar, execution: CudaDataType },
    Gemv {
        element: Element,
        trans: CublasOperation,
        m: i32,
        n: i32,
        alpha: Scalar,
        a: u64,
        lda: i32,
        x: u64,
        incx: i32,
        beta: Scalar,
        y: u64,
        incy: i32,
    },
    Ger {
        element: Element,
        m: i32,
        n: i32,
        alpha: Scalar,
        x: u64,
        incx: i32,
        y: u64,
        incy: i32,
        a: u64,
        lda: i32,
    },
    Geam {
        element: Element,
        trans_a: CublasOperation,
        trans_b: CublasOperation,
        m: i32,
        n: i32,
        alpha: Scalar,
        a: u64,
        lda: i32,
        beta: Scalar,
        b: u64,
        ldb: i32,
        c: u64,
        ldc: i32,
    },
    Syrk {
        element: Element,
        uplo: CublasFillMode,
        trans: CublasOperation,
        n: i32,
        k: i32,
        alpha: Scalar,
        a: u64,
        lda: i32,
        beta: Scalar,
        c: u64,
        ldc: i32,
    },
    Trsm {
        element: Element,
        side: CublasSideMode,
        uplo: CublasFillMode,
        trans: CublasOperation,
        diag: CublasDiagType,
        m: i32,
        n: i32,
        alpha: Scalar,
        a: u64,
        lda: i32,
        b: u64,
        ldb: i32,
    },
    Gemm { element: Element, config: GemmConfig, a: u64, b: u64, c: u64 },
    GemmStridedBatched {
        element: Element,
        config: GemmConfig,
        batch_size: i32,
        stride_a: i64,
        stride_b: i64,
        stride_c: i64,
        a: u64,
        b: u64,
        c: u64,
    },
}

/// A value as a scalar argument.
pub open spec fn scalar_of<S: ScalarBits>(v: S) -> Scalar {
    Scalar { bits: v.spec_bits(), data_type: S::spec_element().spec_cuda_data_type() }
}

pub(crate) fn scalar<S: ScalarBits>(v: S) -> (s: Scalar)
    ensures
        s == scalar_of(v),
{
    Scalar { bits: v.to_bits(), data_type: S::cuda_data_type() }
}

/// A buffer as a vector argument.
pub open spec fn vector_of<T: CudaDtype>(slice: DeviceSlice, inc: i32) -> VectorArg {
    VectorArg { ptr: slice.ptr, data_type: T::spec_element().spec_cuda_data_type(), inc }
}

pub(crate) fn vector<T: CudaDtype>(slice: DeviceSlice, inc: i32) -> (v: VectorArg)
    ensures
        v == vector_of::<T>(slice, inc),
{
    VectorArg { ptr: slice.ptr, data_type: T::cuda_data_type(), inc }
}

/// A request that the actor can dispatch.
pub trait BlasDispatch: Sized {
    spec fn spec_op_name(&self) -> Seq<char>;

    spec fn spec_dtype_name(&self) -> Seq<char>;

    /// The library call to make, or why the request is refused before it.
    spec fn dispatch_plan(&self, m: MemoryView) -> Result<BlasCall, ErrorView>;

    /// The memory with the write targets of the request marked as written on the
    /// stream.
    spec fn dispatch_written(&self, m: MemoryView, stream: u64) -> MemoryView;

    /// Every buffer of the request is valid.
    spec fn buffers_current(&self, m: MemoryView) -> bool;

    /// The request is the only owner of every buffer that it writes.
    spec fn owns_targets(&self, m: MemoryView) -> bool;

    /// A request reaches the library exactly when all its buffers are valid
    /// and it is the only owner of what it writes.
    proof fn law_dispatch_iff(&self, m: MemoryView)
        ensures
            self.dispatch_plan(m) is Ok <==> self.buffers_current(m) && self.owns_targets(m),
    ;

    /// Name of the operation.
    fn op_name(&self) -> (s: &'static str)
        ensures
            s@ == self.spec_op_name(),
    ;

    /// Name of the element type.
    fn dtype_name(&self) -> (s: &'static str)
        ensures
            s@ == self.spec_dtype_name(),
    ;

    /// Validate the request and give the library call to make.
    fn dispatch(&self, mem: &mut MemoryTable, stream: u64) -> (r: Result<BlasCall, GpuError>)
        ensures
            error::outcome(r) == self.dispatch_plan(old(mem)@),
            final(mem)@ == if r is Ok {
                self.dispatch_written(old(mem)@, stream)
            } else {
                old(mem)@
            },
    ;
}

} // verus!
