//! Matrix product requests.

use vstd::prelude::*;

use crate::dtype::{AccelDtype, Bf16, F16, F32, F64, GemmSupported, ScalarBits};
use crate::error::{ErrorView, GpuError};
use crate::error;
use crate::gpu_ref::{GpuRef, MemoryTable, MemoryView};
use crate::kernel::blas;
use crate::kernel::blas::{scalar, BlasCall, BlasDispatch, CublasOperation, GemmConfig};
use crate::kernel::envelope;
use crate::kernel::envelope::access_all_3;

verus! {

/// Matrix product `C := alpha * op(A) * op(B) + beta * C`, column-major.
pub struct GemmRequest<T: GemmSupported + ScalarBits> {
    pub a: GpuRef<T>,
    pub b: GpuRef<T>,
    pub c: GpuRef<T>,
    pub m: i32,
    pub n: i32,
    pub k: i32,
    pub alpha: T,
    pub beta: T,
    pub trans_a: CublasOperation,
    pub trans_b: CublasOperation,
    pub lda: i32,
    pub ldb: i32,
    pub ldc: i32,
    pub reply: u64,
}

impl<T: GemmSupported + ScalarBits> GemmRequest<T> {
    /// The library call to make, or why the request is refused before it.
    pub open spec fn spec_plan(self, m: MemoryView) -> Result<BlasCall, ErrorView> {
        match envelope::valid_3(self.a, self.b, self.c, m) {
            Err(e) => Err(e),
            Ok((a_slice, b_slice, c_slice)) => if !self.c.is_sole_owner(m) {
                Err(
                    ErrorView::Unrecoverable(
                        "GEMM target buffer C has more than one live reference; caller must hold the unique GpuRef to write to it"@,
                    ),
                )
            } else {
                Ok(
                    BlasCall::Gemm {
                        element: T::spec_element(),
                        config: GemmConfig {
                            trans_a: self.trans_a,
                            trans_b: self.trans_b,
                            m: self.m,
                            n: self.n,
                            k: self.k,
                            alpha: blas::scalar_of(self.alpha),
                            lda: self.lda,
                            ldb: self.ldb,
                            beta: blas::scalar_of(self.beta),
                            ldc: self.ldc,
                        },
                        a: a_slice.ptr,
                        b: b_slice.ptr,
                        c: c_slice.ptr,
                    }
                )
            },
        }
    }

    /// The memory with the write targets of the request marked as written on the
    /// stream.
    pub open spec fn spec_written(self, m: MemoryView, stream: u64) -> MemoryView {
        m.written(self.c.buffer, stream)
    }

    /// Validate the request and give the library call to make. On success the
    /// write targets remember the stream.
    pub fn plan(&self, mem: &mut MemoryTable, stream: u64) -> (r: Result<BlasCall, GpuError>)
        ensures
            error::outcome(r) == self.spec_plan(old(mem)@),
            final(mem)@ == if r is Ok {
                self.spec_written(old(mem)@, stream)
            } else {
                old(mem)@
            },
    {
        let (a_slice, b_slice, c_slice) = match access_all_3(&self.a, &self.b, &self.c, mem) {
            Ok(t) => t,
            Err(e) => {
                return Err(e);
            },
        };
        if !self.c.sole_owner(mem) {
            return Err(
                GpuError::unrecoverable(
                    "GEMM target buffer C has more than one live reference; caller must hold the unique GpuRef to write to it",
                ),
            );
        }
        self.c.record_write(mem, stream);
        Ok(
            BlasCall::Gemm {
                element: T::element(),
                config: GemmConfig {
                    trans_a: self.trans_a,
                    trans_b: self.trans_b,
                    m: self.m,
                    n: self.n,
                    k: self.k,
                    alpha: scalar(self.alpha),
                    lda: self.lda,
                    ldb: self.ldb,
                    beta: scalar(self.beta),
                    ldc: self.ldc,
                },
                a: a_slice.ptr,
                b: b_slice.ptr,
                c: c_slice.ptr,
            }
        )
    }
}

impl BlasDispatch for GemmRequest<F32> {
    open spec fn spec_op_name(&self) -> Seq<char> {
        "gemm"@
    }

    open spec fn spec_dtype_name(&self) -> Seq<char> {
        F32::spec_element().spec_name()
    }

    open spec fn dispatch_plan(&self, m: MemoryView) -> Result<BlasCall, ErrorView> {
        self.spec_plan(m)
    }

    open spec fn dispatch_written(&self, m: MemoryView, stream: u64) -> MemoryView {
        self.spec_written(m, stream)
    }

    open spec fn buffers_current(&self, m: MemoryView) -> bool {
        self.a.validity(m) is Ok && self.b.validity(m) is Ok && self.c.validity(m) is Ok
    }

    open spec fn owns_targets(&self, m: MemoryView) -> bool {
        self.c.is_sole_owner(m)
    }

    proof fn law_dispatch_iff(&self, m: MemoryView) {
    }

    fn op_name(&self) -> (s: &'static str) {
        "gemm"
    }

    fn dtype_name(&self) -> (s: &'static str) {
        F32::name()
    }

    fn dispatch(&self, mem: &mut MemoryTable, stream: u64) -> (r: Result<BlasCall, GpuError>) {
        self.plan(mem, stream)
    }
}

impl BlasDispatch for GemmRequest<F64> {
    open spec fn spec_op_name(&self) -> Seq<char> {
        "gemm"@
    }

    open spec fn spec_dtype_name(&self) -> Seq<char> {
        F64::spec_element().spec_name()
    }

    open spec fn dispatch_plan(&self, m: MemoryView) -> Result<BlasCall, ErrorView> {
        self.spec_plan(m)
    }

    open spec fn dispatch_written(&self, m: MemoryView, stream: u64) -> MemoryView {
        self.spec_written(m, stream)
    }

    open spec fn buffers_current(&self, m: MemoryView) -> bool {
        self.a.validity(m) is Ok && self.b.validity(m) is Ok && self.c.validity(m) is Ok
    }

    open spec fn owns_targets(&self, m: MemoryView) -> bool {
        self.c.is_sole_owner(m)
    }

    proof fn law_dispatch_iff(&self, m: MemoryView) {
    }

    fn op_name(&self) -> (s: &'static str) {
        "gemm"
    }

    fn dtype_name(&self) -> (s: &'static str) {
        F64::name()
    }

    fn dispatch(&self, mem: &mut MemoryTable, stream: u64) -> (r: Result<BlasCall, GpuError>) {
        self.plan(mem, stream)
    }
}

impl BlasDispatch for GemmRequest<F16> {
    open spec fn spec_op_name(&self) -> Seq<char> {
        "gemm"@
    }

    open spec fn spec_dtype_name(&self) -> Seq<char> {
        F16::spec_element().spec_name()
    }

    open spec fn dispatch_plan(&self, m: MemoryView) -> Result<BlasCall, ErrorView> {
        self.spec_plan(m)
    }

    open spec fn dispatch_written(&self, m: MemoryView, stream: u64) -> MemoryView {
        self.spec_written(m, stream)
    }

    open spec fn buffers_current(&self, m: MemoryView) -> bool {
        self.a.validity(m) is Ok && self.b.validity(m) is Ok && self.c.validity(m) is Ok
    }

    open spec fn owns_targets(&self, m: MemoryView) -> bool {
        self.c.is_sole_owner(m)
    }

    proof fn law_dispatch_iff(&self, m: MemoryView) {
    }

    fn op_name(&self) -> (s: &'static str) {
        "gemm"
    }

    fn dtype_name(&self) -> (s: &'static str) {
        F16::name()
    }

    fn dispatch(&self, mem: &mut MemoryTable, stream: u64) -> (r: Result<BlasCall, GpuError>) {
        self.plan(mem, stream)
    }
}

impl BlasDispatch for GemmRequest<Bf16> {
    open spec fn spec_op_name(&self) -> Seq<char> {
        "gemm"@
    }

    open spec fn spec_dtype_name(&self) -> Seq<char> {
        Bf16::spec_element().spec_name()
    }

    open spec fn dispatch_plan(&self, m: MemoryView) -> Result<BlasCall, ErrorView> {
        self.spec_plan(m)
    }

    open spec fn dispatch_written(&self, m: MemoryView, stream: u64) -> MemoryView {
        self.spec_written(m, stream)
    }

    open spec fn buffers_current(&self, m: MemoryView) -> bool {
        self.a.validity(m) is Ok && self.b.validity(m) is Ok && self.c.validity(m) is Ok
    }

    open spec fn owns_targets(&self, m: MemoryView) -> bool {
        self.c.is_sole_owner(m)
    }

    proof fn law_dispatch_iff(&self, m: MemoryView) {
    }

    fn op_name(&self) -> (s: &'static str) {
        "gemm"
    }

    fn dtype_name(&self) -> (s: &'static str) {
        Bf16::name()
    }

    fn dispatch(&self, mem: &mut MemoryTable, stream: u64) -> (r: Result<BlasCall, GpuError>) {
        self.plan(mem, stream)
    }
}

/// A product whose target has another live handle is refused.
pub proof fn law_gemm_refuses_shared_target<T: GemmSupported + ScalarBits>(
    req: GemmRequest<T>,
    m: MemoryView,
)
    requires
        1 <= m.buffer(req.c.buffer).owners < usize::MAX,
    ensures
        req.spec_plan(m.retained(req.c.buffer)) is Err,
{
}

/// An accepted product computes `alpha * op(A) * op(B) + beta * C` in `C`: every
/// argument of the call is the request's argument of the same name. It is made exactly when
/// every buffer is valid and nobody else holds what it writes; the first stale
/// buffer decides the refusal.
pub proof fn law_gemm_call<T: GemmSupported + ScalarBits>(req: GemmRequest<T>, m: MemoryView)
    ensures
        match req.spec_plan(m) {
            Ok(call) => {
                &&& req.a.validity(m) is Ok
                &&& req.b.validity(m) is Ok
                &&& req.c.validity(m) is Ok
                &&& m.buffer(req.c.buffer).owners == 1
                &&& call matches BlasCall::Gemm { element, config, a, b, c } && {
                    &&& element == T::spec_element()
                    &&& config.trans_a == req.trans_a
                    &&& config.trans_b == req.trans_b
                    &&& config.m == req.m
                    &&& config.n == req.n
                    &&& config.k == req.k
                    &&& config.lda == req.lda
                    &&& config.ldb == req.ldb
                    &&& config.ldc == req.ldc
                    &&& config.alpha.bits == req.alpha.spec_bits()
                    &&& config.alpha.data_type == T::spec_element().spec_cuda_data_type()
                    &&& config.beta.bits == req.beta.spec_bits()
                    &&& config.beta.data_type == T::spec_element().spec_cuda_data_type()
                    &&& a == req.a.slice.ptr
                    &&& b == req.b.slice.ptr
                    &&& c == req.c.slice.ptr
                }
            },
            Err(e) => {
                &&& req.a.validity(m) matches Err(stale) ==> e == stale
                &&& req.a.validity(m) is Ok ==> (req.b.validity(m) matches Err(stale) ==> e == stale)
                &&& req.a.validity(m) is Ok && req.b.validity(m) is Ok ==> (req.c.validity(m) matches Err(stale) ==> e == stale)
                &&& req.a.validity(m) is Ok && req.b.validity(m) is Ok && req.c.validity(m) is Ok ==> {
                    &&& m.buffer(req.c.buffer).owners != 1
                    &&& e == ErrorView::Unrecoverable(
                        "GEMM target buffer C has more than one live reference; caller must hold the unique GpuRef to write to it"@,
                    )
                }
            },
        },
{
}

/// An accepted `gemm` leaves a mark of its stream on `c`, and on nothing else.
pub proof fn law_gemm_marks_its_target<T: GemmSupported + ScalarBits>(
    req: GemmRequest<T>,
    m: MemoryView,
    stream: u64,
    other: u64,
)
    ensures
        req.spec_written(m, stream).buffer(req.c.buffer).last_write == Some(stream),
        req.spec_written(m, stream).buffer(req.c.buffer).owners == m.buffer(
            req.c.buffer,
        ).owners,
        other != req.c.buffer ==> req.spec_written(m, stream).buffer(other)
            == m.buffer(other),
        req.spec_written(m, stream).devices == m.devices,
{
}

/// Whatever its element type, a `gemm` request is dispatched as the call above, and
/// says so in its labels.
pub proof fn law_gemm_dispatch(
    r_f32: GemmRequest<F32>,
    r_f64: GemmRequest<F64>,
    r_f16: GemmRequest<F16>,
    r_bf16: GemmRequest<Bf16>,
    m: MemoryView,
    stream: u64,
)
    ensures
        r_f32.dispatch_plan(m) == r_f32.spec_plan(m),
        r_f32.dispatch_written(m, stream) == r_f32.spec_written(m, stream),
        r_f32.spec_op_name() == "gemm"@,
        r_f32.spec_dtype_name() == F32::spec_element().spec_name(),
        r_f64.dispatch_plan(m) == r_f64.spec_plan(m),
        r_f64.dispatch_written(m, stream) == r_f64.spec_written(m, stream),
        r_f64.spec_op_name() == "gemm"@,
        r_f64.spec_dtype_name() == F64::spec_element().spec_name(),
        r_f16.dispatch_plan(m) == r_f16.spec_plan(m),
        r_f16.dispatch_written(m, stream) == r_f16.spec_written(m, stream),
        r_f16.spec_op_name() == "gemm"@,
        r_f16.spec_dtype_name() == F16::spec_element().spec_name(),
        r_bf16.dispatch_plan(m) == r_bf16.spec_plan(m),
        r_bf16.dispatch_written(m, stream) == r_bf16.spec_written(m, stream),
        r_bf16.spec_op_name() == "gemm"@,
        r_bf16.spec_dtype_name() == Bf16::spec_element().spec_name(),
{
}

} // verus!
