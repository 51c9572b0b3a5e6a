//! Level-1 vector requests: axpy, scal, nrm2, dot, asum, iamax, iamin, copy, swap
//! and rot.
//!
//! Each request validates its buffers in the order `x`, `y`, then checks that it
//! is the only owner of what it writes, and becomes one call of the extended
//! cuBLAS entry points, which take the element types as arguments.

use vstd::prelude::*;

use crate::dtype::{
    AccelDtype, AxpyDotNrm2Supported, CudaDtype, HasScalar, ScalarBits, F32, F64,
};
use crate::error::{ErrorView, GpuError};
use crate::error;
use crate::gpu_ref::{GpuRef, MemoryTable, MemoryView};
use crate::kernel::blas;
use crate::kernel::blas::{scalar, vector, BlasCall, BlasDispatch};
use crate::kernel::envelope;
use crate::kernel::envelope::access_all_2;

verus! {

/// `y := alpha * x + y`.
pub struct AxpyRequest<T: AxpyDotNrm2Supported> {
    pub n: i32,
    pub alpha: T::Scalar,
    pub x: GpuRef<T>,
    pub incx: i32,
    pub y: GpuRef<T>,
    pub incy: i32,
    pub reply: u64,
}

impl<T: AxpyDotNrm2Supported> AxpyRequest<T> {
    /// The library call to make, or why the request is refused before it.
    pub open spec fn spec_plan(self, m: MemoryView) -> Result<BlasCall, ErrorView> {
        match envelope::valid_2(self.x, self.y, m) {
            Err(e) => Err(e),
            Ok((x_slice, y_slice)) => if !self.y.is_sole_owner(m) {
                Err(
                    ErrorView::Unrecoverable(
                        "AXPY target buffer Y has more than one live reference"@,
                    ),
                )
            } else {
                Ok(
                    BlasCall::AxpyEx {
                        n: self.n,
                        alpha: blas::scalar_of(self.alpha),
                        x: blas::vector_of::<T>(x_slice, self.incx),
                        y: blas::vector_of::<T>(y_slice, self.incy),
                        execution: T::Scalar::spec_element().spec_cuda_data_type(),
                    }
                )
            },
        }
    }

    /// The memory with the write targets of the request marked as written on the
    /// stream.
    pub open spec fn spec_written(self, m: MemoryView, stream: u64) -> MemoryView {
        m.written(self.y.buffer, stream)
    }

    /// Validate the request and give the library call to make. On success the
    /// write targets remember the stream.
    pub fn plan(&self, mem: &mut MemoryTable, stream: u64) -> (r: Result<BlasCall, GpuError>)
        ensures
            error::outcome(r) == self.spec_plan(old(mem)@),
            final(mem)@ == if r is Ok {
                self.spec_written(old(mem)@, stream)
            } else {
                old(mem)@
            },
    {
        let (x_slice, y_slice) = match access_all_2(&self.x, &self.y, mem) {
            Ok(t) => t,
            Err(e) => {
                return Err(e);
            },
        };
        if !self.y.sole_owner(mem) {
            return Err(
                GpuError::unrecoverable(
                    "AXPY target buffer Y has more than one live reference",
                ),
            );
        }
        self.y.record_write(mem, stream);
        Ok(
            BlasCall::AxpyEx {
                n: self.n,
                alpha: scalar(self.alpha),
                x: vector::<T>(x_slice, self.incx),
                y: vector::<T>(y_slice, self.incy),
                execution: T::Scalar::cuda_data_type(),
            }
        )
    }
}

impl<T: AxpyDotNrm2Supported> BlasDispatch for AxpyRequest<T> {
    open spec fn spec_op_name(&self) -> Seq<char> {
        "axpy"@
    }

    open spec fn spec_dtype_name(&self) -> Seq<char> {
        T::spec_element().spec_name()
    }

    open spec fn dispatch_plan(&self, m: MemoryView) -> Result<BlasCall, ErrorView> {
        self.spec_plan(m)
    }

    open spec fn dispatch_written(&self, m: MemoryView, stream: u64) -> MemoryView {
        self.spec_written(m, stream)
    }

    open spec fn buffers_current(&self, m: MemoryView) -> bool {
        self.x.validity(m) is Ok && self.y.validity(m) is Ok
    }

    open spec fn owns_targets(&self, m: MemoryView) -> bool {
        self.y.is_sole_owner(m)
    }

    proof fn law_dispatch_iff(&self, m: MemoryView) {
    }

    fn op_name(&self) -> (s: &'static str) {
        "axpy"
    }

    fn dtype_name(&self) -> (s: &'static str) {
        T::name()
    }

    fn dispatch(&self, mem: &mut MemoryTable, stream: u64) -> (r: Result<BlasCall, GpuError>) {
        self.plan(mem, stream)
    }
}

/// `x := alpha * x`.
pub struct ScalRequest<T: AxpyDotNrm2Supported> {
    pub n: i32,
    pub alpha: T::Scalar,
    pub x: GpuRef<T>,
    pub incx: i32,
    pub reply: u64,
}

impl<T: AxpyDotNrm2Supported> ScalRequest<T> {
    /// The library call to make, or why the request is refused before it.
    pub open spec fn spec_plan(self, m: MemoryView) -> Result<BlasCall, ErrorView> {
        match self.x.validity(m) {
            Err(e) => Err(e),
            Ok(x_slice) => if !self.x.is_sole_owner(m) {
                Err(
                    ErrorView::Unrecoverable(
                        "SCAL target buffer X has more than one live reference"@,
                    ),
                )
            } else {
                Ok(
                    BlasCall::ScalEx {
                        n: self.n,
                        alpha: blas::scalar_of(self.alpha),
                        x: blas::vector_of::<T>(x_slice, self.incx),
                        execution: T::Scalar::spec_element().spec_cuda_data_type(),
                    }
                )
            },
        }
    }

    /// The memory with the write targets of the request marked as written on the
    /// stream.
    pub open spec fn spec_written(self, m: MemoryView, stream: u64) -> MemoryView {
        m.written(self.x.buffer, stream)
    }

    /// Validate the request and give the library call to make. On success the
    /// write targets remember the stream.
    pub fn plan(&self, mem: &mut MemoryTable, stream: u64) -> (r: Result<BlasCall, GpuError>)
        ensures
            error::outcome(r) == self.spec_plan(old(mem)@),
            final(mem)@ == if r is Ok {
                self.spec_written(old(mem)@, stream)
            } else {
                old(mem)@
            },
    {
        let x_slice = match self.x.access(mem) {
            Ok(t) => t,
            Err(e) => {
                return Err(e);
            },
        };
        if !self.x.sole_owner(mem) {
            return Err(
                GpuError::unrecoverable(
                    "SCAL target buffer X has more than one live reference",
                ),
            );
        }
        self.x.record_write(mem, stream);
        Ok(
            BlasCall::ScalEx {
                n: self.n,
                alpha: scalar(self.alpha),
                x: vector::<T>(x_slice, self.incx),
                execution: T::Scalar::cuda_data_type(),
            }
        )
    }
}

impl<T: AxpyDotNrm2Supported> BlasDispatch for ScalRequest<T> {
    open spec fn spec_op_name(&self) -> Seq<char> {
        "scal"@
    }

    open spec fn spec_dtype_name(&self) -> Seq<char> {
        T::spec_element().spec_name()
    }

    open spec fn dispatch_plan(&self, m: MemoryView) -> Result<BlasCall, ErrorView> {
        self.spec_plan(m)
    }

    open spec fn dispatch_written(&self, m: MemoryView, stream: u64) -> MemoryView {
        self.spec_written(m, stream)
    }

    open spec fn buffers_current(&self, m: MemoryView) -> bool {
        self.x.validity(m) is Ok
    }

    open spec fn owns_targets(&self, m: MemoryView) -> bool {
        self.x.is_sole_owner(m)
    }

    proof fn law_dispatch_iff(&self, m: MemoryView) {
    }

    fn op_name(&self) -> (s: &'static str) {
        "scal"
    }

    fn dtype_name(&self) -> (s: &'static str) {
        T::name()
    }

    fn dispatch(&self, mem: &mut MemoryTable, stream: u64) -> (r: Result<BlasCall, GpuError>) {
        self.plan(mem, stream)
    }
}

/// Euclidean norm of `x`.
pub struct Nrm2Request<T: AxpyDotNrm2Supported> {
    pub n: i32,
    pub x: GpuRef<T>,
    pub incx: i32,
    pub reply: u64,
}

impl<T: AxpyDotNrm2Supported> Nrm2Request<T> {
    /// The library call to make, or why the request is refused before it.
    pub open spec fn spec_plan(self, m: MemoryView) -> Result<BlasCall, ErrorView> {
        match self.x.validity(m) {
            Err(e) => Err(e),
            Ok(x_slice) => Ok(
                BlasCall::Nrm2Ex {
                    n: self.n,
                    x: blas::vector_of::<T>(x_slice, self.incx),
                    result_type: T::Scalar::spec_element().spec_cuda_data_type(),
                    execution: T::spec_element().spec_cuda_data_type(),
                }
            ),
        }
    }

    /// The memory with the write targets of the request marked as written on the
    /// stream.
    pub open spec fn spec_written(self, m: MemoryView, stream: u64) -> MemoryView {
        m
    }

    /// Validate the request and give the library call to make. On success the
    /// write targets remember the stream.
    pub fn plan(&self, mem: &mut MemoryTable, stream: u64) -> (r: Result<BlasCall, GpuError>)
        ensures
            error::outcome(r) == self.spec_plan(old(mem)@),
            final(mem)@ == if r is Ok {
                self.spec_written(old(mem)@, stream)
            } else {
                old(mem)@
            },
    {
        let x_slice = match self.x.access(mem) {
            Ok(t) => t,
            Err(e) => {
                return Err(e);
            },
        };
        Ok(
            BlasCall::Nrm2Ex {
                n: self.n,
                x: vector::<T>(x_slice, self.incx),
                result_type: T::Scalar::cuda_data_type(),
                execution: T::cuda_data_type(),
            }
        )
    }
}

impl BlasDispatch for Nrm2Request<F32> {
    open spec fn spec_op_name(&self) -> Seq<char> {
        "nrm2"@
    }

    open spec fn spec_dtype_name(&self) -> Seq<char> {
        F32::spec_element().spec_name()
    }

    open spec fn dispatch_plan(&self, m: MemoryView) -> Result<BlasCall, ErrorView> {
        self.spec_plan(m)
    }

    open spec fn dispatch_written(&self, m: MemoryView, stream: u64) -> MemoryView {
        self.spec_written(m, stream)
    }

    open spec fn buffers_current(&self, m: MemoryView) -> bool {
        self.x.validity(m) is Ok
    }

    open spec fn owns_targets(&self, m: MemoryView) -> bool {
        true
    }

    proof fn law_dispatch_iff(&self, m: MemoryView) {
    }

    fn op_name(&self) -> (s: &'static str) {
        "nrm2"
    }

    fn dtype_name(&self) -> (s: &'static str) {
        F32::name()
    }

    fn dispatch(&self, mem: &mut MemoryTable, stream: u64) -> (r: Result<BlasCall, GpuError>) {
        self.plan(mem, stream)
    }
}

impl BlasDispatch for Nrm2Request<F64> {
    open spec fn spec_op_name(&self) -> Seq<char> {
        "nrm2"@
    }

    open spec fn spec_dtype_name(&self) -> Seq<char> {
        F64::spec_element().spec_name()
    }

    open spec fn dispatch_plan(&self, m: MemoryView) -> Result<BlasCall, ErrorView> {
        self.spec_plan(m)
    }

    open spec fn dispatch_written(&self, m: MemoryView, stream: u64) -> MemoryView {
        self.spec_written(m, stream)
    }

    open spec fn buffers_current(&self, m: MemoryView) -> bool {
        self.x.validity(m) is Ok
    }

    open spec fn owns_targets(&self, m: MemoryView) -> bool {
        true
    }

    proof fn law_dispatch_iff(&self, m: MemoryView) {
    }

    fn op_name(&self) -> (s: &'static str) {
        "nrm2"
    }

    fn dtype_name(&self) -> (s: &'static str) {
        F64::name()
    }

    fn dispatch(&self, mem: &mut MemoryTable, stream: u64) -> (r: Result<BlasCall, GpuError>) {
        self.plan(mem, stream)
    }
}

/// Inner product of `x` and `y`.
pub struct DotRequest<T: AxpyDotNrm2Supported> {
    pub n: i32,
    pub x: GpuRef<T>,
    pub incx: i32,
    pub y: GpuRef<T>,
    pub incy: i32,
    pub reply: u64,
}

impl<T: AxpyDotNrm2Supported> DotRequest<T> {
    /// The library call to make, or why the request is refused before it.
    pub open spec fn spec_plan(self, m: MemoryView) -> Result<BlasCall, ErrorView> {
        match envelope::valid_2(self.x, self.y, m) {
            Err(e) => Err(e),
            Ok((x_slice, y_slice)) => Ok(
                BlasCall::DotEx {
                    n: self.n,
                    x: blas::vector_of::<T>(x_slice, self.incx),
                    y: blas::vector_of::<T>(y_slice, self.incy),
                    result_type: T::Scalar::spec_element().spec_cuda_data_type(),
                    execution: T::spec_element().spec_cuda_data_type(),
                }
            ),
        }
    }

    /// The memory with the write targets of the request marked as written on the
    /// stream.
    pub open spec fn spec_written(self, m: MemoryView, stream: u64) -> MemoryView {
        m
    }

    /// Validate the request and give the library call to make. On success the
    /// write targets remember the stream.
    pub fn plan(&self, mem: &mut MemoryTable, stream: u64) -> (r: Result<BlasCall, GpuError>)
        ensures
            error::outcome(r) == self.spec_plan(old(mem)@),
            final(mem)@ == if r is Ok {
                self.spec_written(old(mem)@, stream)
            } else {
                old(mem)@
            },
    {
        let (x_slice, y_slice) = match access_all_2(&self.x, &self.y, mem) {
            Ok(t) => t,
            Err(e) => {
                return Err(e);
            },
        };
        Ok(
            BlasCall::DotEx {
                n: self.n,
                x: vector::<T>(x_slice, self.incx),
                y: vector::<T>(y_slice, self.incy),
                result_type: T::Scalar::cuda_data_type(),
                execution: T::cuda_data_type(),
            }
        )
    }
}

impl BlasDispatch for DotRequest<F32> {
    open spec fn spec_op_name(&self) -> Seq<char> {
        "dot"@
    }

    open spec fn spec_dtype_name(&self) -> Seq<char> {
        F32::spec_element().spec_name()
    }

    open spec fn dispatch_plan(&self, m: MemoryView) -> Result<BlasCall, ErrorView> {
        self.spec_plan(m)
    }

    open spec fn dispatch_written(&self, m: MemoryView, stream: u64) -> MemoryView {
        self.spec_written(m, stream)
    }

    open spec fn buffers_current(&self, m: MemoryView) -> bool {
        self.x.validity(m) is Ok && self.y.validity(m) is Ok
    }

    open spec fn owns_targets(&self, m: MemoryView) -> bool {
        true
    }

    proof fn law_dispatch_iff(&self, m: MemoryView) {
    }

    fn op_name(&self) -> (s: &'static str) {
        "dot"
    }

    fn dtype_name(&self) -> (s: &'static str) {
        F32::name()
    }

    fn dispatch(&self, mem: &mut MemoryTable, stream: u64) -> (r: Result<BlasCall, GpuError>) {
        self.plan(mem, stream)
    }
}

impl BlasDispatch for DotRequest<F64> {
    open spec fn spec_op_name(&self) -> Seq<char> {
        "dot"@
    }

    open spec fn spec_dtype_name(&self) -> Seq<char> {
        F64::spec_element().spec_name()
    }

    open spec fn dispatch_plan(&self, m: MemoryView) -> Result<BlasCall, ErrorView> {
        self.spec_plan(m)
    }

    open spec fn dispatch_written(&self, m: MemoryView, stream: u64) -> MemoryView {
        self.spec_written(m, stream)
    }

    open spec fn buffers_current(&self, m: MemoryView) -> bool {
        self.x.validity(m) is Ok && self.y.validity(m) is Ok
    }

    open spec fn owns_targets(&self, m: MemoryView) -> bool {
        true
    }

    proof fn law_dispatch_iff(&self, m: MemoryView) {
    }

    fn op_name(&self) -> (s: &'static str) {
        "dot"
    }

    fn dtype_name(&self) -> (s: &'static str) {
        F64::name()
    }

    fn dispatch(&self, mem: &mut MemoryTable, stream: u64) -> (r: Result<BlasCall, GpuError>) {
        self.plan(mem, stream)
    }
}

/// Sum of the magnitudes of `x`.
pub struct AsumRequest<T: AxpyDotNrm2Supported> {
    pub n: i32,
    pub x: GpuRef<T>,
    pub incx: i32,
    pub reply: u64,
}

impl<T: AxpyDotNrm2Supported> AsumRequest<T> {
    /// The library call to make, or why the request is refused before it.
    pub open spec fn spec_plan(self, m: MemoryView) -> Result<BlasCall, ErrorView> {
        match self.x.validity(m) {
            Err(e) => Err(e),
            Ok(x_slice) => Ok(
                BlasCall::AsumEx {
                    n: self.n,
                    x: blas::vector_of::<T>(x_slice, self.incx),
                    result_type: T::Scalar::spec_element().spec_cuda_data_type(),
                    execution: T::spec_element().spec_cuda_data_type(),
                }
            ),
        }
    }

    /// The memory with the write targets of the request marked as written on the
    /// stream.
    pub open spec fn spec_written(self, m: MemoryView, stream: u64) -> MemoryView {
        m
    }

    /// Validate the request and give the library call to make. On success the
    /// write targets remember the stream.
    pub fn plan(&self, mem: &mut MemoryTable, stream: u64) -> (r: Result<BlasCall, GpuError>)
        ensures
            error::outcome(r) == self.spec_plan(old(mem)@),
            final(mem)@ == if r is Ok {
                self.spec_written(old(mem)@, stream)
            } else {
                old(mem)@
            },
    {
        let x_slice = match self.x.access(mem) {
            Ok(t) => t,
            Err(e) => {
                return Err(e);
            },
        };
        Ok(
            BlasCall::AsumEx {
                n: self.n,
                x: vector::<T>(x_slice, self.incx),
                result_type: T::Scalar::cuda_data_type(),
                execution: T::cuda_data_type(),
            }
        )
    }
}

impl BlasDispatch for AsumRequest<F32> {
    open spec fn spec_op_name(&self) -> Seq<char> {
        "asum"@
    }

    open spec fn spec_dtype_name(&self) -> Seq<char> {
        F32::spec_element().spec_name()
    }

    open spec fn dispatch_plan(&self, m: MemoryView) -> Result<BlasCall, ErrorView> {
        self.spec_plan(m)
    }

    open spec fn dispatch_written(&self, m: MemoryView, stream: u64) -> MemoryView {
        self.spec_written(m, stream)
    }

    open spec fn buffers_current(&self, m: MemoryView) -> bool {
        self.x.validity(m) is Ok
    }

    open spec fn owns_targets(&self, m: MemoryView) -> bool {
        true
    }

    proof fn law_dispatch_iff(&self, m: MemoryView) {
    }

    fn op_name(&self) -> (s: &'static str) {
        "asum"
    }

    fn dtype_name(&self) -> (s: &'static str) {
        F32::name()
    }

    fn dispatch(&self, mem: &mut MemoryTable, stream: u64) -> (r: Result<BlasCall, GpuError>) {
        self.plan(mem, stream)
    }
}

impl BlasDispatch for AsumRequest<F64> {
    open spec fn spec_op_name(&self) -> Seq<char> {
        "asum"@
    }

    open spec fn spec_dtype_name(&self) -> Seq<char> {
        F64::spec_element().spec_name()
    }

    open spec fn dispatch_plan(&self, m: MemoryView) -> Result<BlasCall, ErrorView> {
        self.spec_plan(m)
    }

    open spec fn dispatch_written(&self, m: MemoryView, stream: u64) -> MemoryView {
        self.spec_written(m, stream)
    }

    open spec fn buffers_current(&self, m: MemoryView) -> bool {
        self.x.validity(m) is Ok
    }

    open spec fn owns_targets(&self, m: MemoryView) -> bool {
        true
    }

    proof fn law_dispatch_iff(&self, m: MemoryView) {
    }

    fn op_name(&self) -> (s: &'static str) {
        "asum"
    }

    fn dtype_name(&self) -> (s: &'static str) {
        F64::name()
    }

    fn dispatch(&self, mem: &mut MemoryTable, stream: u64) -> (r: Result<BlasCall, GpuError>) {
        self.plan(mem, stream)
    }
}

/// Index of the element of `x` with the largest magnitude.
pub struct IamaxRequest<T: AxpyDotNrm2Supported> {
    pub n: i32,
    pub x: GpuRef<T>,
    pub incx: i32,
    pub reply: u64,
}

impl<T: AxpyDotNrm2Supported> IamaxRequest<T> {
    /// The library call to make, or why the request is refused before it.
    pub open spec fn spec_plan(self, m: MemoryView) -> Result<BlasCall, ErrorView> {
        match self.x.validity(m) {
            Err(e) => Err(e),
            Ok(x_slice) => Ok(
                BlasCall::IamaxEx {
                    n: self.n,
                    x: blas::vector_of::<T>(x_slice, self.incx),
                }
            ),
        }
    }

    /// The memory with the write targets of the request marked as written on the
    /// stream.
    pub open spec fn spec_written(self, m: MemoryView, stream: u64) -> MemoryView {
        m
    }

    /// Validate the request and give the library call to make. On success the
    /// write targets remember the stream.
    pub fn plan(&self, mem: &mut MemoryTable, stream: u64) -> (r: Result<BlasCall, GpuError>)
        ensures
            error::outcome(r) == self.spec_plan(old(mem)@),
            final(mem)@ == if r is Ok {
                self.spec_written(old(mem)@, stream)
            } else {
                old(mem)@
            },
    {
        let x_slice = match self.x.access(mem) {
            Ok(t) => t,
            Err(e) => {
                return Err(e);
            },
        };
        Ok(
            BlasCall::IamaxEx {
                n: self.n,
                x: vector::<T>(x_slice, self.incx),
            }
        )
    }
}

impl BlasDispatch for IamaxRequest<F32> {
    open spec fn spec_op_name(&self) -> Seq<char> {
        "iamax"@
    }

    open spec fn spec_dtype_name(&self) -> Seq<char> {
        F32::spec_element().spec_name()
    }

    open spec fn dispatch_plan(&self, m: MemoryView) -> Result<BlasCall, ErrorView> {
        self.spec_plan(m)
    }

    open spec fn dispatch_written(&self, m: MemoryView, stream: u64) -> MemoryView {
        self.spec_written(m, stream)
    }

    open spec fn buffers_current(&self, m: MemoryView) -> bool {
        self.x.validity(m) is Ok
    }

    open spec fn owns_targets(&self, m: MemoryView) -> bool {
        true
    }

    proof fn law_dispatch_iff(&self, m: MemoryView) {
    }

    fn op_name(&self) -> (s: &'static str) {
        "iamax"
    }

    fn dtype_name(&self) -> (s: &'static str) {
        F32::name()
    }

    fn dispatch(&self, mem: &mut MemoryTable, stream: u64) -> (r: Result<BlasCall, GpuError>) {
        self.plan(mem, stream)
    }
}

impl BlasDispatch for IamaxRequest<F64> {
    open spec fn spec_op_name(&self) -> Seq<char> {
        "iamax"@
    }

    open spec fn spec_dtype_name(&self) -> Seq<char> {
        F64::spec_element().spec_name()
    }

    open spec fn dispatch_plan(&self, m: MemoryView) -> Result<BlasCall, ErrorView> {
        self.spec_plan(m)
    }

    open spec fn dispatch_written(&self, m: MemoryView, stream: u64) -> MemoryView {
        self.spec_written(m, stream)
    }

    open spec fn buffers_current(&self, m: MemoryView) -> bool {
        self.x.validity(m) is Ok
    }

    open spec fn owns_targets(&self, m: MemoryView) -> bool {
        true
    }

    proof fn law_dispatch_iff(&self, m: MemoryView) {
    }

    fn op_name(&self) -> (s: &'static str) {
        "iamax"
    }

    fn dtype_name(&self) -> (s: &'static str) {
        F64::name()
    }

    fn dispatch(&self, mem: &mut MemoryTable, stream: u64) -> (r: Result<BlasCall, GpuError>) {
        self.plan(mem, stream)
    }
}

/// Index of the element of `x` with the smallest magnitude.
pub struct IaminRequest<T: AxpyDotNrm2Supported> {
    pub n: i32,
    pub x: GpuRef<T>,
    pub incx: i32,
    pub reply: u64,
}

impl<T: AxpyDotNrm2Supported> IaminRequest<T> {
    /// The library call to make, or why the request is refused before it.
    pub open spec fn spec_plan(self, m: MemoryView) -> Result<BlasCall, ErrorView> {
        match self.x.validity(m) {
            Err(e) => Err(e),
            Ok(x_slice) => Ok(
                BlasCall::IaminEx {
                    n: self.n,
                    x: blas::vector_of::<T>(x_slice, self.incx),
                }
            ),
        }
    }

    /// The memory with the write targets of the request marked as written on the
    /// stream.
    pub open spec fn spec_written(self, m: MemoryView, stream: u64) -> MemoryView {
        m
    }

    /// Validate the request and give the library call to make. On success the
    /// write targets remember the stream.
    pub fn plan(&self, mem: &mut MemoryTable, stream: u64) -> (r: Result<BlasCall, GpuError>)
        ensures
            error::outcome(r) == self.spec_plan(old(mem)@),
            final(mem)@ == if r is Ok {
                self.spec_written(old(mem)@, stream)
            } else {
                old(mem)@
            },
    {
        let x_slice = match self.x.access(mem) {
            Ok(t) => t,
            Err(e) => {
                return Err(e);
            },
        };
        Ok(
            BlasCall::IaminEx {
                n: self.n,
                x: vector::<T>(x_slice, self.incx),
            }
        )
    }
}

impl BlasDispatch for IaminRequest<F32> {
    open spec fn spec_op_name(&self) -> Seq<char> {
        "iamin"@
    }

    open spec fn spec_dtype_name(&self) -> Seq<char> {
        F32::spec_element().spec_name()
    }

    open spec fn dispatch_plan(&self, m: MemoryView) -> Result<BlasCall, ErrorView> {
        self.spec_plan(m)
    }

    open spec fn dispatch_written(&self, m: MemoryView, stream: u64) -> MemoryView {
        self.spec_written(m, stream)
    }

    open spec fn buffers_current(&self, m: MemoryView) -> bool {
        self.x.validity(m) is Ok
    }

    open spec fn owns_targets(&self, m: MemoryView) -> bool {
        true
    }

    proof fn law_dispatch_iff(&self, m: MemoryView) {
    }

    fn op_name(&self) -> (s: &'static str) {
        "iamin"
    }

    fn dtype_name(&self) -> (s: &'static str) {
        F32::name()
    }

    fn dispatch(&self, mem: &mut MemoryTable, stream: u64) -> (r: Result<BlasCall, GpuError>) {
        self.plan(mem, stream)
    }
}

impl BlasDispatch for IaminRequest<F64> {
    open spec fn spec_op_name(&self) -> Seq<char> {
        "iamin"@
    }

    open spec fn spec_dtype_name(&self) -> Seq<char> {
        F64::spec_element().spec_name()
    }

    open spec fn dispatch_plan(&self, m: MemoryView) -> Result<BlasCall, ErrorView> {
        self.spec_plan(m)
    }

    open spec fn dispatch_written(&self, m: MemoryView, stream: u64) -> MemoryView {
        self.spec_written(m, stream)
    }

    open spec fn buffers_current(&self, m: MemoryView) -> bool {
        self.x.validity(m) is Ok
    }

    open spec fn owns_targets(&self, m: MemoryView) -> bool {
        true
    }

    proof fn law_dispatch_iff(&self, m: MemoryView) {
    }

    fn op_name(&self) -> (s: &'static str) {
        "iamin"
    }

    fn dtype_name(&self) -> (s: &'static str) {
        F64::name()
    }

    fn dispatch(&self, mem: &mut MemoryTable, stream: u64) -> (r: Result<BlasCall, GpuError>) {
        self.plan(mem, stream)
    }
}

/// `y := x`.
pub struct CopyRequest<T: AxpyDotNrm2Supported> {
    pub n: i32,
    pub x: GpuRef<T>,
    pub incx: i32,
    pub y: GpuRef<T>,
    pub incy: i32,
    pub reply: u64,
}

impl<T: AxpyDotNrm2Supported> CopyRequest<T> {
    /// The library call to make, or why the request is refused before it.
    pub open spec fn spec_plan(self, m: MemoryView) -> Result<BlasCall, ErrorView> {
        match envelope::valid_2(self.x, self.y, m) {
            Err(e) => Err(e),
            Ok((x_slice, y_slice)) => if !self.y.is_sole_owner(m) {
                Err(
                    ErrorView::Unrecoverable(
                        "COPY target buffer Y has more than one live reference"@,
                    ),
                )
            } else {
                Ok(
                    BlasCall::CopyEx {
                        n: self.n,
                        x: blas::vector_of::<T>(x_slice, self.incx),
                        y: blas::vector_of::<T>(y_slice, self.incy),
                    }
                )
            },
        }
    }

    /// The memory with the write targets of the request marked as written on the
    /// stream.
    pub open spec fn spec_written(self, m: MemoryView, stream: u64) -> MemoryView {
        m.written(self.y.buffer, stream)
    }

    /// Validate the request and give the library call to make. On success the
    /// write targets remember the stream.
    pub fn plan(&self, mem: &mut MemoryTable, stream: u64) -> (r: Result<BlasCall, GpuError>)
        ensures
            error::outcome(r) == self.spec_plan(old(mem)@),
            final(mem)@ == if r is Ok {
                self.spec_written(old(mem)@, stream)
            } else {
                old(mem)@
            },
    {
        let (x_slice, y_slice) = match access_all_2(&self.x, &self.y, mem) {
            Ok(t) => t,
            Err(e) => {
                return Err(e);
            },
        };
        if !self.y.sole_owner(mem) {
            return Err(
                GpuError::unrecoverable(
                    "COPY target buffer Y has more than one live reference",
                ),
            );
        }
        self.y.record_write(mem, stream);
        Ok(
            BlasCall::CopyEx {
                n: self.n,
                x: vector::<T>(x_slice, self.incx),
                y: vector::<T>(y_slice, self.incy),
            }
        )
    }
}

impl BlasDispatch for CopyRequest<F32> {
    open spec fn spec_op_name(&self) -> Seq<char> {
        "copy"@
    }

    open spec fn spec_dtype_name(&self) -> Seq<char> {
        F32::spec_element().spec_name()
    }

    open spec fn dispatch_plan(&self, m: MemoryView) -> Result<BlasCall, ErrorView> {
        self.spec_plan(m)
    }

    open spec fn dispatch_written(&self, m: MemoryView, stream: u64) -> MemoryView {
        self.spec_written(m, stream)
    }

    open spec fn buffers_current(&self, m: MemoryView) -> bool {
        self.x.validity(m) is Ok && self.y.validity(m) is Ok
    }

    open spec fn owns_targets(&self, m: MemoryView) -> bool {
        self.y.is_sole_owner(m)
    }

    proof fn law_dispatch_iff(&self, m: MemoryView) {
    }

    fn op_name(&self) -> (s: &'static str) {
        "copy"
    }

    fn dtype_name(&self) -> (s: &'static str) {
        F32::name()
    }

    fn dispatch(&self, mem: &mut MemoryTable, stream: u64) -> (r: Result<BlasCall, GpuError>) {
        self.plan(mem, stream)
    }
}

impl BlasDispatch for CopyRequest<F64> {
    open spec fn spec_op_name(&self) -> Seq<char> {
        "copy"@
    }

    open spec fn spec_dtype_name(&self) -> Seq<char> {
        F64::spec_element().spec_name()
    }

    open spec fn dispatch_plan(&self, m: MemoryView) -> Result<BlasCall, ErrorView> {
        self.spec_plan(m)
    }

    open spec fn dispatch_written(&self, m: MemoryView, stream: u64) -> MemoryView {
        self.spec_written(m, stream)
    }

    open spec fn buffers_current(&self, m: MemoryView) -> bool {
        self.x.validity(m) is Ok && self.y.validity(m) is Ok
    }

    open spec fn owns_targets(&self, m: MemoryView) -> bool {
        self.y.is_sole_owner(m)
    }

    proof fn law_dispatch_iff(&self, m: MemoryView) {
    }

    fn op_name(&self) -> (s: &'static str) {
        "copy"
    }

    fn dtype_name(&self) -> (s: &'static str) {
        F64::name()
    }

    fn dispatch(&self, mem: &mut MemoryTable, stream: u64) -> (r: Result<BlasCall, GpuError>) {
        self.plan(mem, stream)
    }
}

/// Exchange `x` and `y`.
pub struct SwapRequest<T: AxpyDotNrm2Supported> {
    pub n: i32,
    pub x: GpuRef<T>,
    pub incx: i32,
    pub y: GpuRef<T>,
    pub incy: i32,
    pub reply: u64,
}

impl<T: AxpyDotNrm2Supported> SwapRequest<T> {
    /// The library call to make, or why the request is refused before it.
    pub open spec fn spec_plan(self, m: MemoryView) -> Result<BlasCall, ErrorView> {
        match envelope::valid_2(self.x, self.y, m) {
            Err(e) => Err(e),
            Ok((x_slice, y_slice)) => if !self.x.is_sole_owner(m) {
                Err(
                    ErrorView::Unrecoverable(
                        "SWAP buffer X has more than one live reference"@,
                    ),
                )
            } else if !self.y.is_sole_owner(m) {
                Err(
                    ErrorView::Unrecoverable(
                        "SWAP buffer Y has more than one live reference"@,
                    ),
                )
            } else {
                Ok(
                    BlasCall::SwapEx {
                        n: self.n,
                        x: blas::vector_of::<T>(x_slice, self.incx),
                        y: blas::vector_of::<T>(y_slice, self.incy),
                    }
                )
            },
        }
    }

    /// The memory with the write targets of the request marked as written on the
    /// stream.
    pub open spec fn spec_written(self, m: MemoryView, stream: u64) -> MemoryView {
        m.written(self.x.buffer, stream).written(self.y.buffer, stream)
    }

    /// Validate the request and give the library call to make. On success the
    /// write targets remember the stream.
    pub fn plan(&self, mem: &mut MemoryTable, stream: u64) -> (r: Result<BlasCall, GpuError>)
        ensures
            error::outcome(r) == self.spec_plan(old(mem)@),
            final(mem)@ == if r is Ok {
                self.spec_written(old(mem)@, stream)
            } else {
                old(mem)@
            },
    {
        let (x_slice, y_slice) = match access_all_2(&self.x, &self.y, mem) {
            Ok(t) => t,
            Err(e) => {
                return Err(e);
            },
        };
        if !self.x.sole_owner(mem) {
            return Err(
                GpuError::unrecoverable(
                    "SWAP buffer X has more than one live reference",
                ),
            );
        }
        if !self.y.sole_owner(mem) {
            return Err(
                GpuError::unrecoverable(
                    "SWAP buffer Y has more than one live reference",
                ),
            );
        }
        self.x.record_write(mem, stream);
        self.y.record_write(mem, stream);
        Ok(
            BlasCall::SwapEx {
                n: self.n,
                x: vector::<T>(x_slice, self.incx),
                y: vector::<T>(y_slice, self.incy),
            }
        )
    }
}

impl BlasDispatch for SwapRequest<F32> {
    open spec fn spec_op_name(&self) -> Seq<char> {
        "swap"@
    }

    open spec fn spec_dtype_name(&self) -> Seq<char> {
        F32::spec_element().spec_name()
    }

    open spec fn dispatch_plan(&self, m: MemoryView) -> Result<BlasCall, ErrorView> {
        self.spec_plan(m)
    }

    open spec fn dispatch_written(&self, m: MemoryView, stream: u64) -> MemoryView {
        self.spec_written(m, stream)
    }

    open spec fn buffers_current(&self, m: MemoryView) -> bool {
        self.x.validity(m) is Ok && self.y.validity(m) is Ok
    }

    open spec fn owns_targets(&self, m: MemoryView) -> bool {
        self.x.is_sole_owner(m) && self.y.is_sole_owner(m)
    }

    proof fn law_dispatch_iff(&self, m: MemoryView) {
    }

    fn op_name(&self) -> (s: &'static str) {
        "swap"
    }

    fn dtype_name(&self) -> (s: &'static str) {
        F32::name()
    }

    fn dispatch(&self, mem: &mut MemoryTable, stream: u64) -> (r: Result<BlasCall, GpuError>) {
        self.plan(mem, stream)
    }
}

impl BlasDispatch for SwapRequest<F64> {
    open spec fn spec_op_name(&self) -> Seq<char> {
        "swap"@
    }

    open spec fn spec_dtype_name(&self) -> Seq<char> {
        F64::spec_element().spec_name()
    }

    open spec fn dispatch_plan(&self, m: MemoryView) -> Result<BlasCall, ErrorView> {
        self.spec_plan(m)
    }

    open spec fn dispatch_written(&self, m: MemoryView, stream: u64) -> MemoryView {
        self.spec_written(m, stream)
    }

    open spec fn buffers_current(&self, m: MemoryView) -> bool {
        self.x.validity(m) is Ok && self.y.validity(m) is Ok
    }

    open spec fn owns_targets(&self, m: MemoryView) -> bool {
        self.x.is_sole_owner(m) && self.y.is_sole_owner(m)
    }

    proof fn law_dispatch_iff(&self, m: MemoryView) {
    }

    fn op_name(&self) -> (s: &'static str) {
        "swap"
    }

    fn dtype_name(&self) -> (s: &'static str) {
        F64::name()
    }

    fn dispatch(&self, mem: &mut MemoryTable, stream: u64) -> (r: Result<BlasCall, GpuError>) {
        self.plan(mem, stream)
    }
}

/// Givens rotation of `x` and `y` in place: `x := c * x + s * y` and
/// `y := c * y - s * x`, with the `x` of before.
pub struct RotRequest<T: AxpyDotNrm2Supported> {
    pub n: i32,
    pub x: GpuRef<T>,
    pub incx: i32,
    pub y: GpuRef<T>,
    pub incy: i32,
    pub c: T::Scalar,
    pub s: T::Scalar,
    pub reply: u64,
}

impl<T: AxpyDotNrm2Supported> RotRequest<T> {
    /// The library call to make, or why the request is refused before it.
    pub open spec fn spec_plan(self, m: MemoryView) -> Result<BlasCall, ErrorView> {
        match envelope::valid_2(self.x, self.y, m) {
            Err(e) => Err(e),
            Ok((x_slice, y_slice)) => if !self.x.is_sole_owner(m) {
                Err(
                    ErrorView::Unrecoverable(
                        "ROT buffer X has more than one live reference"@,
                    ),
                )
            } else if !self.y.is_sole_owner(m) {
                Err(
                    ErrorView::Unrecoverable(
                        "ROT buffer Y has more than one live reference"@,
                    ),
                )
            } else {
                Ok(
                    BlasCall::RotEx {
                        n: self.n,
                        x: blas::vector_of::<T>(x_slice, self.incx),
                        y: blas::vector_of::<T>(y_slice, self.incy),
                        c: blas::scalar_of(self.c),
                        s: blas::scalar_of(self.s),
                        execution: T::spec_element().spec_cuda_data_type(),
                    }
                )
            },
        }
    }

    /// The memory with the write targets of the request marked as written on the
    /// stream.
    pub open spec fn spec_written(self, m: MemoryView, stream: u64) -> MemoryView {
        m.written(self.x.buffer, stream).written(self.y.buffer, stream)
    }

    /// Validate the request and give the library call to make. On success the
    /// write targets remember the stream.
    pub fn plan(&self, mem: &mut MemoryTable, stream: u64) -> (r: Result<BlasCall, GpuError>)
        ensures
            error::outcome(r) == self.spec_plan(old(mem)@),
            final(mem)@ == if r is Ok {
                self.spec_written(old(mem)@, stream)
            } else {
                old(mem)@
            },
    {
        let (x_slice, y_slice) = match access_all_2(&self.x, &self.y, mem) {
            Ok(t) => t,
            Err(e) => {
                return Err(e);
            },
        };
        if !self.x.sole_owner(mem) {
            return Err(
                GpuError::unrecoverable(
                    "ROT buffer X has more than one live reference",
                ),
            );
        }
        if !self.y.sole_owner(mem) {
            return Err(
                GpuError::unrecoverable(
                    "ROT buffer Y has more than one live reference",
                ),
            );
        }
        self.x.record_write(mem, stream);
        self.y.record_write(mem, stream);
        Ok(
            BlasCall::RotEx {
                n: self.n,
                x: vector::<T>(x_slice, self.incx),
                y: vector::<T>(y_slice, self.incy),
                c: scalar(self.c),
                s: scalar(self.s),
                execution: T::cuda_data_type(),
            }
        )
    }
}

impl BlasDispatch for RotRequest<F32> {
    open spec fn spec_op_name(&self) -> Seq<char> {
        "rot"@
    }

    open spec fn spec_dtype_name(&self) -> Seq<char> {
        F32::spec_element().spec_name()
    }

    open spec fn dispatch_plan(&self, m: MemoryView) -> Result<BlasCall, ErrorView> {
        self.spec_plan(m)
    }

    open spec fn dispatch_written(&self, m: MemoryView, stream: u64) -> MemoryView {
        self.spec_written(m, stream)
    }

    open spec fn buffers_current(&self, m: MemoryView) -> bool {
        self.x.validity(m) is Ok && self.y.validity(m) is Ok
    }

    open spec fn owns_targets(&self, m: MemoryView) -> bool {
        self.x.is_sole_owner(m) && self.y.is_sole_owner(m)
    }

    proof fn law_dispatch_iff(&self, m: MemoryView) {
    }

    fn op_name(&self) -> (s: &'static str) {
        "rot"
    }

    fn dtype_name(&self) -> (s: &'static str) {
        F32::name()
    }

    fn dispatch(&self, mem: &mut MemoryTable, stream: u64) -> (r: Result<BlasCall, GpuError>) {
        self.plan(mem, stream)
    }
}

impl BlasDispatch for RotRequest<F64> {
    open spec fn spec_op_name(&self) -> Seq<char> {
        "rot"@
    }

    open spec fn spec_dtype_name(&self) -> Seq<char> {
        F64::spec_element().spec_name()
    }

    open spec fn dispatch_plan(&self, m: MemoryView) -> Result<BlasCall, ErrorView> {
        self.spec_plan(m)
    }

    open spec fn dispatch_written(&self, m: MemoryView, stream: u64) -> MemoryView {
        self.spec_written(m, stream)
    }

    open spec fn buffers_current(&self, m: MemoryView) -> bool {
        self.x.validity(m) is Ok && self.y.validity(m) is Ok
    }

    open spec fn owns_targets(&self, m: MemoryView) -> bool {
        self.x.is_sole_owner(m) && self.y.is_sole_owner(m)
    }

    proof fn law_dispatch_iff(&self, m: MemoryView) {
    }

    fn op_name(&self) -> (s: &'static str) {
        "rot"
    }

    fn dtype_name(&self) -> (s: &'static str) {
        F64::name()
    }

    fn dispatch(&self, mem: &mut MemoryTable, stream: u64) -> (r: Result<BlasCall, GpuError>) {
        self.plan(mem, stream)
    }
}

/// An accepted `axpy` adds `alpha * x` to `y`: the call takes the request's own
/// scalar, vectors and increments, each in its place. It is made exactly when
/// every buffer is valid and nobody else holds what it writes; the first stale
/// buffer decides the refusal.
pub proof fn law_axpy_call<T: AxpyDotNrm2Supported>(req: AxpyRequest<T>, m: MemoryView)
    ensures
        match req.spec_plan(m) {
            Ok(call) => {
                &&& req.x.validity(m) is Ok
                &&& req.y.validity(m) is Ok
                &&& m.buffer(req.y.buffer).owners == 1
                &&& call matches BlasCall::AxpyEx { n, alpha, x, y, execution } && {
                    &&& n == req.n
                    &&& alpha.bits == req.alpha.spec_bits()
                    &&& alpha.data_type == T::Scalar::spec_element().spec_cuda_data_type()
                    &&& x.ptr == req.x.slice.ptr
                    &&& x.inc == req.incx
                    &&& x.data_type == T::spec_element().spec_cuda_data_type()
                    &&& y.ptr == req.y.slice.ptr
                    &&& y.inc == req.incy
                    &&& y.data_type == T::spec_element().spec_cuda_data_type()
                    &&& execution == T::Scalar::spec_element().spec_cuda_data_type()
                }
            },
            Err(e) => {
                &&& req.x.validity(m) matches Err(stale) ==> e == stale
                &&& req.x.validity(m) is Ok ==> (req.y.validity(m) matches Err(stale) ==> e == stale)
                &&& req.x.validity(m) is Ok && req.y.validity(m) is Ok ==> {
                    &&& m.buffer(req.y.buffer).owners != 1
                    &&& e == ErrorView::Unrecoverable(
                        "AXPY target buffer Y has more than one live reference"@,
                    )
                }
            },
        },
{
}

/// An accepted `axpy` leaves a mark of its stream on `y`, and on nothing else.
pub proof fn law_axpy_marks_its_target<T: AxpyDotNrm2Supported>(
    req: AxpyRequest<T>,
    m: MemoryView,
    stream: u64,
    other: u64,
)
    ensures
        req.spec_written(m, stream).buffer(req.y.buffer).last_write == Some(stream),
        req.spec_written(m, stream).buffer(req.y.buffer).owners == m.buffer(
            req.y.buffer,
        ).owners,
        other != req.y.buffer ==> req.spec_written(m, stream).buffer(other)
            == m.buffer(other),
        req.spec_written(m, stream).devices == m.devices,
{
}

/// Whatever its element type, a `axpy` request is dispatched as the call above, and
/// says so in its labels.
pub proof fn law_axpy_dispatch<T: AxpyDotNrm2Supported>(
    req: AxpyRequest<T>,
    m: MemoryView,
    stream: u64,
)
    ensures
        req.dispatch_plan(m) == req.spec_plan(m),
        req.dispatch_written(m, stream) == req.spec_written(m, stream),
        req.spec_op_name() == "axpy"@,
        req.spec_dtype_name() == T::spec_element().spec_name(),
{
}

/// An accepted `scal` multiplies `x` by `alpha` in place. It is made exactly when
/// every buffer is valid and nobody else holds what it writes; the first stale
/// buffer decides the refusal.
pub proof fn law_scal_call<T: AxpyDotNrm2Supported>(req: ScalRequest<T>, m: MemoryView)
    ensures
        match req.spec_plan(m) {
            Ok(call) => {
                &&& req.x.validity(m) is Ok
                &&& m.buffer(req.x.buffer).owners == 1
                &&& call matches BlasCall::ScalEx { n, alpha, x, execution } && {
                    &&& n == req.n
                    &&& alpha.bits == req.alpha.spec_bits()
                    &&& alpha.data_type == T::Scalar::spec_element().spec_cuda_data_type()
                    &&& x.ptr == req.x.slice.ptr
                    &&& x.inc == req.incx
                    &&& x.data_type == T::spec_element().spec_cuda_data_type()
                    &&& execution == T::Scalar::spec_element().spec_cuda_data_type()
                }
            },
            Err(e) => {
                &&& req.x.validity(m) matches Err(stale) ==> e == stale
                &&& req.x.validity(m) is Ok ==> {
                    &&& m.buffer(req.x.buffer).owners != 1
                    &&& e == ErrorView::Unrecoverable(
                        "SCAL target buffer X has more than one live reference"@,
                    )
                }
            },
        },
{
}

/// An accepted `scal` leaves a mark of its stream on `x`, and on nothing else.
pub proof fn law_scal_marks_its_target<T: AxpyDotNrm2Supported>(
    req: ScalRequest<T>,
    m: MemoryView,
    stream: u64,
    other: u64,
)
    ensures
        req.spec_written(m, stream).buffer(req.x.buffer).last_write == Some(stream),
        req.spec_written(m, stream).buffer(req.x.buffer).owners == m.buffer(
            req.x.buffer,
        ).owners,
        other != req.x.buffer ==> req.spec_written(m, stream).buffer(other)
            == m.buffer(other),
        req.spec_written(m, stream).devices == m.devices,
{
}

/// Whatever its element type, a `scal` request is dispatched as the call above, and
/// says so in its labels.
pub proof fn law_scal_dispatch<T: AxpyDotNrm2Supported>(
    req: ScalRequest<T>,
    m: MemoryView,
    stream: u64,
)
    ensures
        req.dispatch_plan(m) == req.spec_plan(m),
        req.dispatch_written(m, stream) == req.spec_written(m, stream),
        req.spec_op_name() == "scal"@,
        req.spec_dtype_name() == T::spec_element().spec_name(),
{
}

/// An accepted `nrm2` reads `x` and writes no buffer. It is made exactly when
/// every buffer is valid and nobody else holds what it writes; the first stale
/// buffer decides the refusal.
pub proof fn law_nrm2_call<T: AxpyDotNrm2Supported>(req: Nrm2Request<T>, m: MemoryView)
    ensures
        match req.spec_plan(m) {
            Ok(call) => {
                &&& req.x.validity(m) is Ok
                &&& call matches BlasCall::Nrm2Ex { n, x, result_type, execution } && {
                    &&& n == req.n
                    &&& x.ptr == req.x.slice.ptr
                    &&& x.inc == req.incx
                    &&& x.data_type == T::spec_element().spec_cuda_data_type()
                    &&& result_type == T::Scalar::spec_element().spec_cuda_data_type()
                    &&& execution == T::spec_element().spec_cuda_data_type()
                }
            },
            Err(e) => {
                &&& req.x.validity(m) matches Err(stale) ==> e == stale
                &&& !(req.x.validity(m) is Ok)
            },
        },
{
}

/// `nrm2` writes to no buffer.
pub proof fn law_nrm2_writes_nothing<T: AxpyDotNrm2Supported>(req: Nrm2Request<T>, m: MemoryView, stream: u64)
    ensures
        req.spec_written(m, stream) == m,
{
}

/// Whatever its element type, a `nrm2` request is dispatched as the call above, and
/// says so in its labels.
pub proof fn law_nrm2_dispatch(
    r_f32: Nrm2Request<F32>,
    r_f64: Nrm2Request<F64>,
    m: MemoryView,
    stream: u64,
)
    ensures
        r_f32.dispatch_plan(m) == r_f32.spec_plan(m),
        r_f32.dispatch_written(m, stream) == r_f32.spec_written(m, stream),
        r_f32.spec_op_name() == "nrm2"@,
        r_f32.spec_dtype_name() == F32::spec_element().spec_name(),
        r_f64.dispatch_plan(m) == r_f64.spec_plan(m),
        r_f64.dispatch_written(m, stream) == r_f64.spec_written(m, stream),
        r_f64.spec_op_name() == "nrm2"@,
        r_f64.spec_dtype_name() == F64::spec_element().spec_name(),
{
}

/// An accepted `dot` reads `x` and `y`, each with its own increment, and writes no
/// buffer. It is made exactly when
/// every buffer is valid and nobody else holds what it writes; the first stale
/// buffer decides the refusal.
pub proof fn law_dot_call<T: AxpyDotNrm2Supported>(req: DotRequest<T>, m: MemoryView)
    ensures
        match req.spec_plan(m) {
            Ok(call) => {
                &&& req.x.validity(m) is Ok
                &&& req.y.validity(m) is Ok
                &&& call matches BlasCall::DotEx { n, x, y, result_type, execution } && {
                    &&& n == req.n
                    &&& x.ptr == req.x.slice.ptr
                    &&& x.inc == req.incx
                    &&& x.data_type == T::spec_element().spec_cuda_data_type()
                    &&& y.ptr == req.y.slice.ptr
                    &&& y.inc == req.incy
                    &&& y.data_type == T::spec_element().spec_cuda_data_type()
                    &&& result_type == T::Scalar::spec_element().spec_cuda_data_type()
                    &&& execution == T::spec_element().spec_cuda_data_type()
                }
            },
            Err(e) => {
                &&& req.x.validity(m) matches Err(stale) ==> e == stale
                &&& req.x.validity(m) is Ok ==> (req.y.validity(m) matches Err(stale) ==> e == stale)
                &&& !(req.x.validity(m) is Ok && req.y.validity(m) is Ok)
            },
        },
{
}

/// `dot` writes to no buffer.
pub proof fn law_dot_writes_nothing<T: AxpyDotNrm2Supported>(req: DotRequest<T>, m: MemoryView, stream: u64)
    ensures
        req.spec_written(m, stream) == m,
{
}

/// Whatever its element type, a `dot` request is dispatched as the call above, and
/// says so in its labels.
pub proof fn law_dot_dispatch(
    r_f32: DotRequest<F32>,
    r_f64: DotRequest<F64>,
    m: MemoryView,
    stream: u64,
)
    ensures
        r_f32.dispatch_plan(m) == r_f32.spec_plan(m),
        r_f32.dispatch_written(m, stream) == r_f32.spec_written(m, stream),
        r_f32.spec_op_name() == "dot"@,
        r_f32.spec_dtype_name() == F32::spec_element().spec_name(),
        r_f64.dispatch_plan(m) == r_f64.spec_plan(m),
        r_f64.dispatch_written(m, stream) == r_f64.spec_written(m, stream),
        r_f64.spec_op_name() == "dot"@,
        r_f64.spec_dtype_name() == F64::spec_element().spec_name(),
{
}

/// An accepted `asum` reads `x` and writes no buffer. It is made exactly when
/// every buffer is valid and nobody else holds what it writes; the first stale
/// buffer decides the refusal.
pub proof fn law_asum_call<T: AxpyDotNrm2Supported>(req: AsumRequest<T>, m: MemoryView)
    ensures
        match req.spec_plan(m) {
            Ok(call) => {
                &&& req.x.validity(m) is Ok
                &&& call matches BlasCall::AsumEx { n, x, result_type, execution } && {
                    &&& n == req.n
                    &&& x.ptr == req.x.slice.ptr
                    &&& x.inc == req.incx
                    &&& x.data_type == T::spec_element().spec_cuda_data_type()
                    &&& result_type == T::Scalar::spec_element().spec_cuda_data_type()
                    &&& execution == T::spec_element().spec_cuda_data_type()
                }
            },
            Err(e) => {
                &&& req.x.validity(m) matches Err(stale) ==> e == stale
                &&& !(req.x.validity(m) is Ok)
            },
        },
{
}

/// `asum` writes to no buffer.
pub proof fn law_asum_writes_nothing<T: AxpyDotNrm2Supported>(req: AsumRequest<T>, m: MemoryView, stream: u64)
    ensures
        req.spec_written(m, stream) == m,
{
}

/// Whatever its element type, a `asum` request is dispatched as the call above, and
/// says so in its labels.
pub proof fn law_asum_dispatch(
    r_f32: AsumRequest<F32>,
    r_f64: AsumRequest<F64>,
    m: MemoryView,
    stream: u64,
)
    ensures
        r_f32.dispatch_plan(m) == r_f32.spec_plan(m),
        r_f32.dispatch_written(m, stream) == r_f32.spec_written(m, stream),
        r_f32.spec_op_name() == "asum"@,
        r_f32.spec_dtype_name() == F32::spec_element().spec_name(),
        r_f64.dispatch_plan(m) == r_f64.spec_plan(m),
        r_f64.dispatch_written(m, stream) == r_f64.spec_written(m, stream),
        r_f64.spec_op_name() == "asum"@,
        r_f64.spec_dtype_name() == F64::spec_element().spec_name(),
{
}

/// An accepted `iamax` asks for the largest element of `x`, never the smallest, and
/// writes no buffer. It is made exactly when
/// every buffer is valid and nobody else holds what it writes; the first stale
/// buffer decides the refusal.
pub proof fn law_iamax_call<T: AxpyDotNrm2Supported>(req: IamaxRequest<T>, m: MemoryView)
    ensures
        match req.spec_plan(m) {
            Ok(call) => {
                &&& req.x.validity(m) is Ok
                &&& call matches BlasCall::IamaxEx { n, x } && {
                    &&& n == req.n
                    &&& x.ptr == req.x.slice.ptr
                    &&& x.inc == req.incx
                    &&& x.data_type == T::spec_element().spec_cuda_data_type()
                }
            },
            Err(e) => {
                &&& req.x.validity(m) matches Err(stale) ==> e == stale
                &&& !(req.x.validity(m) is Ok)
            },
        },
{
}

/// `iamax` writes to no buffer.
pub proof fn law_iamax_writes_nothing<T: AxpyDotNrm2Supported>(req: IamaxRequest<T>, m: MemoryView, stream: u64)
    ensures
        req.spec_written(m, stream) == m,
{
}

/// Whatever its element type, a `iamax` request is dispatched as the call above, and
/// says so in its labels.
pub proof fn law_iamax_dispatch(
    r_f32: IamaxRequest<F32>,
    r_f64: IamaxRequest<F64>,
    m: MemoryView,
    stream: u64,
)
    ensures
        r_f32.dispatch_plan(m) == r_f32.spec_plan(m),
        r_f32.dispatch_written(m, stream) == r_f32.spec_written(m, stream),
        r_f32.spec_op_name() == "iamax"@,
        r_f32.spec_dtype_name() == F32::spec_element().spec_name(),
        r_f64.dispatch_plan(m) == r_f64.spec_plan(m),
        r_f64.dispatch_written(m, stream) == r_f64.spec_written(m, stream),
        r_f64.spec_op_name() == "iamax"@,
        r_f64.spec_dtype_name() == F64::spec_element().spec_name(),
{
}

/// An accepted `iamin` asks for the smallest element of `x`, never the largest, and
/// writes no buffer. It is made exactly when
/// every buffer is valid and nobody else holds what it writes; the first stale
/// buffer decides the refusal.
pub proof fn law_iamin_call<T: AxpyDotNrm2Supported>(req: IaminRequest<T>, m: MemoryView)
    ensures
        match req.spec_plan(m) {
            Ok(call) => {
                &&& req.x.validity(m) is Ok
                &&& call matches BlasCall::IaminEx { n, x } && {
                    &&& n == req.n
                    &&& x.ptr == req.x.slice.ptr
                    &&& x.inc == req.incx
                    &&& x.data_type == T::spec_element().spec_cuda_data_type()
                }
            },
            Err(e) => {
                &&& req.x.validity(m) matches Err(stale) ==> e == stale
                &&& !(req.x.validity(m) is Ok)
            },
        },
{
}

/// `iamin` writes to no buffer.
pub proof fn law_iamin_writes_nothing<T: AxpyDotNrm2Supported>(req: IaminRequest<T>, m: MemoryView, stream: u64)
    ensures
        req.spec_written(m, stream) == m,
{
}

/// Whatever its element type, a `iamin` request is dispatched as the call above, and
/// says so in its labels.
pub proof fn law_iamin_dispatch(
    r_f32: IaminRequest<F32>,
    r_f64: IaminRequest<F64>,
    m: MemoryView,
    stream: u64,
)
    ensures
        r_f32.dispatch_plan(m) == r_f32.spec_plan(m),
        r_f32.dispatch_written(m, stream) == r_f32.spec_written(m, stream),
        r_f32.spec_op_name() == "iamin"@,
        r_f32.spec_dtype_name() == F32::spec_element().spec_name(),
        r_f64.dispatch_plan(m) == r_f64.spec_plan(m),
        r_f64.dispatch_written(m, stream) == r_f64.spec_written(m, stream),
        r_f64.spec_op_name() == "iamin"@,
        r_f64.spec_dtype_name() == F64::spec_element().spec_name(),
{
}

/// An accepted `copy` copies `x` over `y`, and not the other way round. It is made exactly when
/// every buffer is valid and nobody else holds what it writes; the first stale
/// buffer decides the refusal.
pub proof fn law_copy_call<T: AxpyDotNrm2Supported>(req: CopyRequest<T>, m: MemoryView)
    ensures
        match req.spec_plan(m) {
            Ok(call) => {
                &&& req.x.validity(m) is Ok
                &&& req.y.validity(m) is Ok
                &&& m.buffer(req.y.buffer).owners == 1
                &&& call matches BlasCall::CopyEx { n, x, y } && {
                    &&& n == req.n
                    &&& x.ptr == req.x.slice.ptr
                    &&& x.inc == req.incx
                    &&& x.data_type == T::spec_element().spec_cuda_data_type()
                    &&& y.ptr == req.y.slice.ptr
                    &&& y.inc == req.incy
                    &&& y.data_type == T::spec_element().spec_cuda_data_type()
                }
            },
            Err(e) => {
                &&& req.x.validity(m) matches Err(stale) ==> e == stale
                &&& req.x.validity(m) is Ok ==> (req.y.validity(m) matches Err(stale) ==> e == stale)
                &&& req.x.validity(m) is Ok && req.y.validity(m) is Ok ==> {
                    &&& m.buffer(req.y.buffer).owners != 1
                    &&& e == ErrorView::Unrecoverable(
                        "COPY target buffer Y has more than one live reference"@,
                    )
                }
            },
        },
{
}

/// An accepted `copy` leaves a mark of its stream on `y`, and on nothing else.
pub proof fn law_copy_marks_its_target<T: AxpyDotNrm2Supported>(
    req: CopyRequest<T>,
    m: MemoryView,
    stream: u64,
    other: u64,
)
    ensures
        req.spec_written(m, stream).buffer(req.y.buffer).last_write == Some(stream),
        req.spec_written(m, stream).buffer(req.y.buffer).owners == m.buffer(
            req.y.buffer,
        ).owners,
        other != req.y.buffer ==> req.spec_written(m, stream).buffer(other)
            == m.buffer(other),
        req.spec_written(m, stream).devices == m.devices,
{
}

/// Whatever its element type, a `copy` request is dispatched as the call above, and
/// says so in its labels.
pub proof fn law_copy_dispatch(
    r_f32: CopyRequest<F32>,
    r_f64: CopyRequest<F64>,
    m: MemoryView,
    stream: u64,
)
    ensures
        r_f32.dispatch_plan(m) == r_f32.spec_plan(m),
        r_f32.dispatch_written(m, stream) == r_f32.spec_written(m, stream),
        r_f32.spec_op_name() == "copy"@,
        r_f32.spec_dtype_name() == F32::spec_element().spec_name(),
        r_f64.dispatch_plan(m) == r_f64.spec_plan(m),
        r_f64.dispatch_written(m, stream) == r_f64.spec_written(m, stream),
        r_f64.spec_op_name() == "copy"@,
        r_f64.spec_dtype_name() == F64::spec_element().spec_name(),
{
}

/// An accepted `swap` exchanges `x` and `y`, and so needs both for itself. It is made exactly when
/// every buffer is valid and nobody else holds what it writes; the first stale
/// buffer decides the refusal.
pub proof fn law_swap_call<T: AxpyDotNrm2Supported>(req: SwapRequest<T>, m: MemoryView)
    ensures
        match req.spec_plan(m) {
            Ok(call) => {
                &&& req.x.validity(m) is Ok
                &&& req.y.validity(m) is Ok
                &&& m.buffer(req.x.buffer).owners == 1
                &&& m.buffer(req.y.buffer).owners == 1
                &&& call matches BlasCall::SwapEx { n, x, y } && {
                    &&& n == req.n
                    &&& x.ptr == req.x.slice.ptr
                    &&& x.inc == req.incx
                    &&& x.data_type == T::spec_element().spec_cuda_data_type()
                    &&& y.ptr == req.y.slice.ptr
                    &&& y.inc == req.incy
                    &&& y.data_type == T::spec_element().spec_cuda_data_type()
                }
            },
            Err(e) => {
                &&& req.x.validity(m) matches Err(stale) ==> e == stale
                &&& req.x.validity(m) is Ok ==> (req.y.validity(m) matches Err(stale) ==> e == stale)
                &&& req.x.validity(m) is Ok && req.y.validity(m) is Ok ==> if m.buffer(req.x.buffer).owners != 1 {
                    e == ErrorView::Unrecoverable("SWAP buffer X has more than one live reference"@)
                } else {
                    &&& m.buffer(req.y.buffer).owners != 1
                    &&& e == ErrorView::Unrecoverable("SWAP buffer Y has more than one live reference"@)
                }
            },
        },
{
}

/// An accepted `swap` leaves a mark of its stream on `x` and `y`, and on nothing else.
pub proof fn law_swap_marks_its_target<T: AxpyDotNrm2Supported>(
    req: SwapRequest<T>,
    m: MemoryView,
    stream: u64,
    other: u64,
)
    ensures
        req.spec_written(m, stream).buffer(req.x.buffer).last_write == Some(stream),
        req.spec_written(m, stream).buffer(req.x.buffer).owners == m.buffer(
            req.x.buffer,
        ).owners,
        req.spec_written(m, stream).buffer(req.y.buffer).last_write == Some(stream),
        req.spec_written(m, stream).buffer(req.y.buffer).owners == m.buffer(
            req.y.buffer,
        ).owners,
        other != req.x.buffer && other != req.y.buffer ==> req.spec_written(m, stream).buffer(other)
            == m.buffer(other),
        req.spec_written(m, stream).devices == m.devices,
{
}

/// Whatever its element type, a `swap` request is dispatched as the call above, and
/// says so in its labels.
pub proof fn law_swap_dispatch(
    r_f32: SwapRequest<F32>,
    r_f64: SwapRequest<F64>,
    m: MemoryView,
    stream: u64,
)
    ensures
        r_f32.dispatch_plan(m) == r_f32.spec_plan(m),
        r_f32.dispatch_written(m, stream) == r_f32.spec_written(m, stream),
        r_f32.spec_op_name() == "swap"@,
        r_f32.spec_dtype_name() == F32::spec_element().spec_name(),
        r_f64.dispatch_plan(m) == r_f64.spec_plan(m),
        r_f64.dispatch_written(m, stream) == r_f64.spec_written(m, stream),
        r_f64.spec_op_name() == "swap"@,
        r_f64.spec_dtype_name() == F64::spec_element().spec_name(),
{
}

/// An accepted `rot` rotates `x` and `y` by the cosine `c` and the sine `s`, and so
/// needs both vectors for itself. It is made exactly when
/// every buffer is valid and nobody else holds what it writes; the first stale
/// buffer decides the refusal.
pub proof fn law_rot_call<T: AxpyDotNrm2Supported>(req: RotRequest<T>, m: MemoryView)
    ensures
        match req.spec_plan(m) {
            Ok(call) => {
                &&& req.x.validity(m) is Ok
                &&& req.y.validity(m) is Ok
                &&& m.buffer(req.x.buffer).owners == 1
                &&& m.buffer(req.y.buffer).owners == 1
                &&& call matches BlasCall::RotEx { n, x, y, c, s, execution } && {
                    &&& n == req.n
                    &&& x.ptr == req.x.slice.ptr
                    &&& x.inc == req.incx
                    &&& x.data_type == T::spec_element().spec_cuda_data_type()
                    &&& y.ptr == req.y.slice.ptr
                    &&& y.inc == req.incy
                    &&& y.data_type == T::spec_element().spec_cuda_data_type()
                    &&& c.bits == req.c.spec_bits()
                    &&& c.data_type == T::Scalar::spec_element().spec_cuda_data_type()
                    &&& s.bits == req.s.spec_bits()
                    &&& s.data_type == T::Scalar::spec_element().spec_cuda_data_type()
                    &&& execution == T::spec_element().spec_cuda_data_type()
                }
            },
            Err(e) => {
                &&& req.x.validity(m) matches Err(stale) ==> e == stale
                &&& req.x.validity(m) is Ok ==> (req.y.validity(m) matches Err(stale) ==> e == stale)
                &&& req.x.validity(m) is Ok && req.y.validity(m) is Ok ==> if m.buffer(req.x.buffer).owners != 1 {
                    e == ErrorView::Unrecoverable("ROT buffer X has more than one live reference"@)
                } else {
                    &&& m.buffer(req.y.buffer).owners != 1
                    &&& e == ErrorView::Unrecoverable("ROT buffer Y has more than one live reference"@)
                }
            },
        },
{
}

/// An accepted `rot` leaves a mark of its stream on `x` and `y`, and on nothing else.
pub proof fn law_rot_marks_its_target<T: AxpyDotNrm2Supported>(
    req: RotRequest<T>,
    m: MemoryView,
    stream: u64,
    other: u64,
)
    ensures
        req.spec_written(m, stream).buffer(req.x.buffer).last_write == Some(stream),
        req.spec_written(m, stream).buffer(req.x.buffer).owners == m.buffer(
            req.x.buffer,
        ).owners,
        req.spec_written(m, stream).buffer(req.y.buffer).last_write == Some(stream),
        req.spec_written(m, stream).buffer(req.y.buffer).owners == m.buffer(
            req.y.buffer,
        ).owners,
        other != req.x.buffer && other != req.y.buffer ==> req.spec_written(m, stream).buffer(other)
            == m.buffer(other),
        req.spec_written(m, stream).devices == m.devices,
{
}

/// Whatever its element type, a `rot` request is dispatched as the call above, and
/// says so in its labels.
pub proof fn law_rot_dispatch(
    r_f32: RotRequest<F32>,
    r_f64: RotRequest<F64>,
    m: MemoryView,
    stream: u64,
)
    ensures
        r_f32.dispatch_plan(m) == r_f32.spec_plan(m),
        r_f32.dispatch_written(m, stream) == r_f32.spec_written(m, stream),
        r_f32.spec_op_name() == "rot"@,
        r_f32.spec_dtype_name() == F32::spec_element().spec_name(),
        r_f64.dispatch_plan(m) == r_f64.spec_plan(m),
        r_f64.dispatch_written(m, stream) == r_f64.spec_written(m, stream),
        r_f64.spec_op_name() == "rot"@,
        r_f64.spec_dtype_name() == F64::spec_element().spec_name(),
{
}

} // verus!
