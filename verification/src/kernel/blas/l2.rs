//! Level-2 matrix-vector requests: gemv and ger.

use vstd::prelude::*;

use crate::dtype::{AccelDtype, F32, F64, GemvSupported, GerSupported, ScalarBits};
use crate::error::{ErrorView, GpuError};
use crate::error;
use crate::gpu_ref::{GpuRef, MemoryTable, MemoryView};
use crate::kernel::blas;
use crate::kernel::blas::{scalar, BlasCall, BlasDispatch, CublasOperation};
use crate::kernel::envelope;
use crate::kernel::envelope::access_all_3;

verus! {

/// `y := alpha * op(A) * x + beta * y`.
pub struct GemvRequest<T: GemvSupported + ScalarBits> {
    pub trans: CublasOperation,
    pub m: i32,
    pub n: i32,
    pub alpha: T,
    pub beta: T,
    pub a: GpuRef<T>,
    pub lda: i32,
    pub x: GpuRef<T>,
    pub incx: i32,
    pub y: GpuRef<T>,
    pub incy: i32,
    pub reply: u64,
}

impl<T: GemvSupported + ScalarBits> GemvRequest<T> {
    /// The library call to make, or why the request is refused before it.
    pub open spec fn spec_plan(self, m: MemoryView) -> Result<BlasCall, ErrorView> {
        match envelope::valid_3(self.a, self.x, self.y, m) {
            Err(e) => Err(e),
            Ok((a_slice, x_slice, y_slice)) => if !self.y.is_sole_owner(m) {
                Err(
                    ErrorView::Unrecoverable(
                        "GEMV target buffer Y has more than one live reference"@,
                    ),
                )
            } else {
                Ok(
                    BlasCall::Gemv {
                        element: T::spec_element(),
                        trans: self.trans,
                        m: self.m,
                        n: self.n,
                        alpha: blas::scalar_of(self.alpha),
                        a: a_slice.ptr,
                        lda: self.lda,
                        x: x_slice.ptr,
                        incx: self.incx,
                        beta: blas::scalar_of(self.beta),
                        y: y_slice.ptr,
                        incy: self.incy,
                    }
                )
            },
        }
    }

    /// The memory with the write targets of the request marked as written on the
    /// stream.
    pub open spec fn spec_written(self, m: MemoryView, stream: u64) -> MemoryView {
        m.written(self.y.buffer, stream)
    }

    /// Validate the request and give the library call to make. On success the
    /// write targets remember the stream.
    pub fn plan(&self, mem: &mut MemoryTable, stream: u64) -> (r: Result<BlasCall, GpuError>)
        ensures
            error::outcome(r) == self.spec_plan(old(mem)@),
            final(mem)@ == if r is Ok {
                self.spec_written(old(mem)@, stream)
            } else {
                old(mem)@
            },
    {
        let (a_slice, x_slice, y_slice) = match access_all_3(&self.a, &self.x, &self.y, mem) {
            Ok(t) => t,
            Err(e) => {
                return Err(e);
            },
        };
        if !self.y.sole_owner(mem) {
            return Err(
                GpuError::unrecoverable(
                    "GEMV target buffer Y has more than one live reference",
                ),
            );
        }
        self.y.record_write(mem, stream);
        Ok(
            BlasCall::Gemv {
                element: T::element(),
                trans: self.trans,
                m: self.m,
                n: self.n,
                alpha: scalar(self.alpha),
                a: a_slice.ptr,
                lda: self.lda,
                x: x_slice.ptr,
                incx: self.incx,
                beta: scalar(self.beta),
                y: y_slice.ptr,
                incy: self.incy,
            }
        )
    }
}

impl BlasDispatch for GemvRequest<F32> {
    open spec fn spec_op_name(&self) -> Seq<char> {
        "gemv"@
    }

    open spec fn spec_dtype_name(&self) -> Seq<char> {
        F32::spec_element().spec_name()
    }

    open spec fn dispatch_plan(&self, m: MemoryView) -> Result<BlasCall, ErrorView> {
        self.spec_plan(m)
    }

    open spec fn dispatch_written(&self, m: MemoryView, stream: u64) -> MemoryView {
        self.spec_written(m, stream)
    }

    open spec fn buffers_current(&self, m: MemoryView) -> bool {
        self.a.validity(m) is Ok && self.x.validity(m) is Ok && self.y.validity(m) is Ok
    }

    open spec fn owns_targets(&self, m: MemoryView) -> bool {
        self.y.is_sole_owner(m)
    }

    proof fn law_dispatch_iff(&self, m: MemoryView) {
    }

    fn op_name(&self) -> (s: &'static str) {
        "gemv"
    }

    fn dtype_name(&self) -> (s: &'static str) {
        F32::name()
    }

    fn dispatch(&self, mem: &mut MemoryTable, stream: u64) -> (r: Result<BlasCall, GpuError>) {
        self.plan(mem, stream)
    }
}

impl BlasDispatch for GemvRequest<F64> {
    open spec fn spec_op_name(&self) -> Seq<char> {
        "gemv"@
    }

    open spec fn spec_dtype_name(&self) -> Seq<char> {
        F64::spec_element().spec_name()
    }

    open spec fn dispatch_plan(&self, m: MemoryView) -> Result<BlasCall, ErrorView> {
        self.spec_plan(m)
    }

    open spec fn dispatch_written(&self, m: MemoryView, stream: u64) -> MemoryView {
        self.spec_written(m, stream)
    }

    open spec fn buffers_current(&self, m: MemoryView) -> bool {
        self.a.validity(m) is Ok && self.x.validity(m) is Ok && self.y.validity(m) is Ok
    }

    open spec fn owns_targets(&self, m: MemoryView) -> bool {
        self.y.is_sole_owner(m)
    }

    proof fn law_dispatch_iff(&self, m: MemoryView) {
    }

    fn op_name(&self) -> (s: &'static str) {
        "gemv"
    }

    fn dtype_name(&self) -> (s: &'static str) {
        F64::name()
    }

    fn dispatch(&self, mem: &mut MemoryTable, stream: u64) -> (r: Result<BlasCall, GpuError>) {
        self.plan(mem, stream)
    }
}

/// Rank-one update `A := alpha * x * y^T + A`.
pub struct GerRequest<T: GerSupported + ScalarBits> {
    pub m: i32,
    pub n: i32,
    pub alpha: T,
    pub x: GpuRef<T>,
    pub incx: i32,
    pub y: GpuRef<T>,
    pub incy: i32,
    pub a: GpuRef<T>,
    pub lda: i32,
    pub reply: u64,
}

impl<T: GerSupported + ScalarBits> GerRequest<T> {
    /// The library call to make, or why the request is refused before it.
    pub open spec fn spec_plan(self, m: MemoryView) -> Result<BlasCall, ErrorView> {
        match envelope::valid_3(self.a, self.x, self.y, m) {
            Err(e) => Err(e),
            Ok((a_slice, x_slice, y_slice)) => if !self.a.is_sole_owner(m) {
                Err(
                    ErrorView::Unrecoverable(
                        "GER target matrix A has more than one live reference"@,
                    ),
                )
            } else {
                Ok(
                    BlasCall::Ger {
                        element: T::spec_element(),
                        m: self.m,
                        n: self.n,
                        alpha: blas::scalar_of(self.alpha),
                        x: x_slice.ptr,
                        incx: self.incx,
                        y: y_slice.ptr,
                        incy: self.incy,
                        a: a_slice.ptr,
                        lda: self.lda,
                    }
                )
            },
        }
    }

    /// The memory with the write targets of the request marked as written on the
    /// stream.
    pub open spec fn spec_written(self, m: MemoryView, stream: u64) -> MemoryView {
        m.written(self.a.buffer, stream)
    }

    /// Validate the request and give the library call to make. On success the
    /// write targets remember the stream.
    pub fn plan(&self, mem: &mut MemoryTable, stream: u64) -> (r: Result<BlasCall, GpuError>)
        ensures
            error::outcome(r) == self.spec_plan(old(mem)@),
            final(mem)@ == if r is Ok {
                self.spec_written(old(mem)@, stream)
            } else {
                old(mem)@
            },
    {
        let (a_slice, x_slice, y_slice) = match access_all_3(&self.a, &self.x, &self.y, mem) {
            Ok(t) => t,
            Err(e) => {
                return Err(e);
            },
        };
        if !self.a.sole_owner(mem) {
            return Err(
                GpuError::unrecoverable(
                    "GER target matrix A has more than one live reference",
                ),
            );
        }
        self.a.record_write(mem, stream);
        Ok(
            BlasCall::Ger {
                element: T::element(),
                m: self.m,
                n: self.n,
                alpha: scalar(self.alpha),
                x: x_slice.ptr,
                incx: self.incx,
                y: y_slice.ptr,
                incy: self.incy,
                a: a_slice.ptr,
                lda: self.lda,
            }
        )
    }
}

impl BlasDispatch for GerRequest<F32> {
    open spec fn spec_op_name(&self) -> Seq<char> {
        "ger"@
    }

    open spec fn spec_dtype_name(&self) -> Seq<char> {
        F32::spec_element().spec_name()
    }

    open spec fn dispatch_plan(&self, m: MemoryView) -> Result<BlasCall, ErrorView> {
        self.spec_plan(m)
    }

    open spec fn dispatch_written(&self, m: MemoryView, stream: u64) -> MemoryView {
        self.spec_written(m, stream)
    }

    open spec fn buffers_current(&self, m: MemoryView) -> bool {
        self.a.validity(m) is Ok && self.x.validity(m) is Ok && self.y.validity(m) is Ok
    }

    open spec fn owns_targets(&self, m: MemoryView) -> bool {
        self.a.is_sole_owner(m)
    }

    proof fn law_dispatch_iff(&self, m: MemoryView) {
    }

    fn op_name(&self) -> (s: &'static str) {
        "ger"
    }

    fn dtype_name(&self) -> (s: &'static str) {
        F32::name()
    }

    fn dispatch(&self, mem: &mut MemoryTable, stream: u64) -> (r: Result<BlasCall, GpuError>) {
        self.plan(mem, stream)
    }
}

impl BlasDispatch for GerRequest<F64> {
    open spec fn spec_op_name(&self) -> Seq<char> {
        "ger"@
    }

    open spec fn spec_dtype_name(&self) -> Seq<char> {
        F64::spec_element().spec_name()
    }

    open spec fn dispatch_plan(&self, m: MemoryView) -> Result<BlasCall, ErrorView> {
        self.spec_plan(m)
    }

    open spec fn dispatch_written(&self, m: MemoryView, stream: u64) -> MemoryView {
        self.spec_written(m, stream)
    }

    open spec fn buffers_current(&self, m: MemoryView) -> bool {
        self.a.validity(m) is Ok && self.x.validity(m) is Ok && self.y.validity(m) is Ok
    }

    open spec fn owns_targets(&self, m: MemoryView) -> bool {
        self.a.is_sole_owner(m)
    }

    proof fn law_dispatch_iff(&self, m: MemoryView) {
    }

    fn op_name(&self) -> (s: &'static str) {
        "ger"
    }

    fn dtype_name(&self) -> (s: &'static str) {
        F64::name()
    }

    fn dispatch(&self, mem: &mut MemoryTable, stream: u64) -> (r: Result<BlasCall, GpuError>) {
        self.plan(mem, stream)
    }
}

/// An accepted `gemv` computes `alpha * op(A) * x + beta * y` in `y`: every argument
/// of the call is the request's argument of the same name. It is made exactly when
/// every buffer is valid and nobody else holds what it writes; the first stale
/// buffer decides the refusal.
pub proof fn law_gemv_call<T: GemvSupported + ScalarBits>(req: GemvRequest<T>, m: MemoryView)
    ensures
        match req.spec_plan(m) {
            Ok(call) => {
                &&& req.a.validity(m) is Ok
                &&& req.x.validity(m) is Ok
                &&& req.y.validity(m) is Ok
                &&& m.buffer(req.y.buffer).owners == 1
                &&& call matches BlasCall::Gemv { element, trans, m, n, alpha, a, lda, x, incx, beta, y, incy } && {
                    &&& element == T::spec_element()
                    &&& trans == req.trans
                    &&& m == req.m
                    &&& n == req.n
                    &&& lda == req.lda
                    &&& incx == req.incx
                    &&& incy == req.incy
                    &&& alpha.bits == req.alpha.spec_bits()
                    &&& alpha.data_type == T::spec_element().spec_cuda_data_type()
                    &&& beta.bits == req.beta.spec_bits()
                    &&& beta.data_type == T::spec_element().spec_cuda_data_type()
                    &&& a == req.a.slice.ptr
                    &&& x == req.x.slice.ptr
                    &&& y == req.y.slice.ptr
                }
            },
            Err(e) => {
                &&& req.a.validity(m) matches Err(stale) ==> e == stale
                &&& req.a.validity(m) is Ok ==> (req.x.validity(m) matches Err(stale) ==> e == stale)
                &&& req.a.validity(m) is Ok && req.x.validity(m) is Ok ==> (req.y.validity(m) matches Err(stale) ==> e == stale)
                &&& req.a.validity(m) is Ok && req.x.validity(m) is Ok && req.y.validity(m) is Ok ==> {
                    &&& m.buffer(req.y.buffer).owners != 1
                    &&& e == ErrorView::Unrecoverable(
                        "GEMV target buffer Y has more than one live reference"@,
                    )
                }
            },
        },
{
}

/// An accepted `gemv` leaves a mark of its stream on `y`, and on nothing else.
pub proof fn law_gemv_marks_its_target<T: GemvSupported + ScalarBits>(
    req: GemvRequest<T>,
    m: MemoryView,
    stream: u64,
    other: u64,
)
    ensures
        req.spec_written(m, stream).buffer(req.y.buffer).last_write == Some(stream),
        req.spec_written(m, stream).buffer(req.y.buffer).owners == m.buffer(
            req.y.buffer,
        ).owners,
        other != req.y.buffer ==> req.spec_written(m, stream).buffer(other)
            == m.buffer(other),
        req.spec_written(m, stream).devices == m.devices,
{
}

/// Whatever its element type, a `gemv` request is dispatched as the call above, and
/// says so in its labels.
pub proof fn law_gemv_dispatch(
    r_f32: GemvRequest<F32>,
    r_f64: GemvRequest<F64>,
    m: MemoryView,
    stream: u64,
)
    ensures
        r_f32.dispatch_plan(m) == r_f32.spec_plan(m),
        r_f32.dispatch_written(m, stream) == r_f32.spec_written(m, stream),
        r_f32.spec_op_name() == "gemv"@,
        r_f32.spec_dtype_name() == F32::spec_element().spec_name(),
        r_f64.dispatch_plan(m) == r_f64.spec_plan(m),
        r_f64.dispatch_written(m, stream) == r_f64.spec_written(m, stream),
        r_f64.spec_op_name() == "gemv"@,
        r_f64.spec_dtype_name() == F64::spec_element().spec_name(),
{
}

/// An accepted `ger` adds `alpha * x * y^T` to the matrix `A`: every argument of the
/// call is the request's argument of the same name. It is made exactly when
/// every buffer is valid and nobody else holds what it writes; the first stale
/// buffer decides the refusal.
pub proof fn law_ger_call<T: GerSupported + ScalarBits>(req: GerRequest<T>, m: MemoryView)
    ensures
        match req.spec_plan(m) {
            Ok(call) => {
                &&& req.a.validity(m) is Ok
                &&& req.x.validity(m) is Ok
                &&& req.y.validity(m) is Ok
                &&& m.buffer(req.a.buffer).owners == 1
                &&& call matches BlasCall::Ger { element, m, n, alpha, x, incx, y, incy, a, lda } && {
                    &&& element == T::spec_element()
                    &&& m == req.m
                    &&& n == req.n
                    &&& lda == req.lda
                    &&& incx == req.incx
                    &&& incy == req.incy
                    &&& alpha.bits == req.alpha.spec_bits()
                    &&& alpha.data_type == T::spec_element().spec_cuda_data_type()
                    &&& a == req.a.slice.ptr
                    &&& x == req.x.slice.ptr
                    &&& y == req.y.slice.ptr
                }
            },
            Err(e) => {
                &&& req.a.validity(m) matches Err(stale) ==> e == stale
                &&& req.a.validity(m) is Ok ==> (req.x.validity(m) matches Err(stale) ==> e == stale)
                &&& req.a.validity(m) is Ok && req.x.validity(m) is Ok ==> (req.y.validity(m) matches Err(stale) ==> e == stale)
                &&& req.a.validity(m) is Ok && req.x.validity(m) is Ok && req.y.validity(m) is Ok ==> {
                    &&& m.buffer(req.a.buffer).owners != 1
                    &&& e == ErrorView::Unrecoverable(
                        "GER target matrix A has more than one live reference"@,
                    )
                }
            },
        },
{
}

/// An accepted `ger` leaves a mark of its stream on `a`, and on nothing else.
pub proof fn law_ger_marks_its_target<T: GerSupported + ScalarBits>(
    req: GerRequest<T>,
    m: MemoryView,
    stream: u64,
    other: u64,
)
    ensures
        req.spec_written(m, stream).buffer(req.a.buffer).last_write == Some(stream),
        req.spec_written(m, stream).buffer(req.a.buffer).owners == m.buffer(
            req.a.buffer,
        ).owners,
        other != req.a.buffer ==> req.spec_written(m, stream).buffer(other)
            == m.buffer(other),
        req.spec_written(m, stream).devices == m.devices,
{
}

/// Whatever its element type, a `ger` request is dispatched as the call above, and
/// says so in its labels.
pub proof fn law_ger_dispatch(
    r_f32: GerRequest<F32>,
    r_f64: GerRequest<F64>,
    m: MemoryView,
    stream: u64,
)
    ensures
        r_f32.dispatch_plan(m) == r_f32.spec_plan(m),
        r_f32.dispatch_written(m, stream) == r_f32.spec_written(m, stream),
        r_f32.spec_op_name() == "ger"@,
        r_f32.spec_dtype_name() == F32::spec_element().spec_name(),
        r_f64.dispatch_plan(m) == r_f64.spec_plan(m),
        r_f64.dispatch_written(m, stream) == r_f64.spec_written(m, stream),
        r_f64.spec_op_name() == "ger"@,
        r_f64.spec_dtype_name() == F64::spec_element().spec_name(),
{
}

} // verus!
