//! Level-3 matrix requests other than the product: geam, syrk and trsm.

use vstd::prelude::*;

use crate::dtype::{AccelDtype, F32, F64, GeamSupported, ScalarBits, SyrkSupported, TrsmSupported};
use crate::error::{ErrorView, GpuError};
use crate::error;
use crate::gpu_ref::{GpuRef, MemoryTable, MemoryView};
use crate::kernel::blas;
use crate::kernel::blas::{
    scalar, BlasCall, BlasDispatch, CublasDiagType, CublasFillMode, CublasOperation, CublasSideMode,
};
use crate::kernel::envelope;
use crate::kernel::envelope::{access_all_2, access_all_3};

verus! {

/// `C := alpha * op(A) + beta * op(B)`.
pub struct GeamRequest<T: GeamSupported + ScalarBits> {
    pub trans_a: CublasOperation,
    pub trans_b: CublasOperation,
    pub m: i32,
    pub n: i32,
    pub alpha: T,
    pub a: GpuRef<T>,
    pub lda: i32,
    pub beta: T,
    pub b: GpuRef<T>,
    pub ldb: i32,
    pub c: GpuRef<T>,
    pub ldc: i32,
    pub reply: u64,
}

impl<T: GeamSupported + ScalarBits> GeamRequest<T> {
    /// The library call to make, or why the request is refused before it.
    pub open spec fn spec_plan(self, m: MemoryView) -> Result<BlasCall, ErrorView> {
        match envelope::valid_3(self.a, self.b, self.c, m) {
            Err(e) => Err(e),
            Ok((a_slice, b_slice, c_slice)) => if !self.c.is_sole_owner(m) {
                Err(
                    ErrorView::Unrecoverable(
                        "GEAM target buffer C has more than one live reference"@,
                    ),
                )
            } else {
                Ok(
                    BlasCall::Geam {
                        element: T::spec_element(),
                        trans_a: self.trans_a,
                        trans_b: self.trans_b,
                        m: self.m,
                        n: self.n,
                        alpha: blas::scalar_of(self.alpha),
                        a: a_slice.ptr,
                        lda: self.lda,
                        beta: blas::scalar_of(self.beta),
                        b: b_slice.ptr,
                        ldb: self.ldb,
                        c: c_slice.ptr,
                        ldc: self.ldc,
                    }
                )
            },
        }
    }

    /// The memory with the write targets of the request marked as written on the
    /// stream.
    pub open spec fn spec_written(self, m: MemoryView, stream: u64) -> MemoryView {
        m.written(self.c.buffer, stream)
    }

    /// Validate the request and give the library call to make. On success the
    /// write targets remember the stream.
    pub fn plan(&self, mem: &mut MemoryTable, stream: u64) -> (r: Result<BlasCall, GpuError>)
        ensures
            error::outcome(r) == self.spec_plan(old(mem)@),
            final(mem)@ == if r is Ok {
                self.spec_written(old(mem)@, stream)
            } else {
                old(mem)@
            },
    {
        let (a_slice, b_slice, c_slice) = match access_all_3(&self.a, &self.b, &self.c, mem) {
            Ok(t) => t,
            Err(e) => {
                return Err(e);
            },
        };
        if !self.c.sole_owner(mem) {
            return Err(
                GpuError::unrecoverable(
                    "GEAM target buffer C has more than one live reference",
                ),
            );
        }
        self.c.record_write(mem, stream);
        Ok(
            BlasCall::Geam {
                element: T::element(),
                trans_a: self.trans_a,
                trans_b: self.trans_b,
                m: self.m,
                n: self.n,
                alpha: scalar(self.alpha),
                a: a_slice.ptr,
                lda: self.lda,
                beta: scalar(self.beta),
                b: b_slice.ptr,
                ldb: self.ldb,
                c: c_slice.ptr,
                ldc: self.ldc,
            }
        )
    }
}

impl BlasDispatch for GeamRequest<F32> {
    open spec fn spec_op_name(&self) -> Seq<char> {
        "geam"@
    }

    open spec fn spec_dtype_name(&self) -> Seq<char> {
        F32::spec_element().spec_name()
    }

    open spec fn dispatch_plan(&self, m: MemoryView) -> Result<BlasCall, ErrorView> {
        self.spec_plan(m)
    }

    open spec fn dispatch_written(&self, m: MemoryView, stream: u64) -> MemoryView {
        self.spec_written(m, stream)
    }

    open spec fn buffers_current(&self, m: MemoryView) -> bool {
        self.a.validity(m) is Ok && self.b.validity(m) is Ok && self.c.validity(m) is Ok
    }

    open spec fn owns_targets(&self, m: MemoryView) -> bool {
        self.c.is_sole_owner(m)
    }

    proof fn law_dispatch_iff(&self, m: MemoryView) {
    }

    fn op_name(&self) -> (s: &'static str) {
        "geam"
    }

    fn dtype_name(&self) -> (s: &'static str) {
        F32::name()
    }

    fn dispatch(&self, mem: &mut MemoryTable, stream: u64) -> (r: Result<BlasCall, GpuError>) {
        self.plan(mem, stream)
    }
}

impl BlasDispatch for GeamRequest<F64> {
    open spec fn spec_op_name(&self) -> Seq<char> {
        "geam"@
    }

    open spec fn spec_dtype_name(&self) -> Seq<char> {
        F64::spec_element().spec_name()
    }

    open spec fn dispatch_plan(&self, m: MemoryView) -> Result<BlasCall, ErrorView> {
        self.spec_plan(m)
    }

    open spec fn dispatch_written(&self, m: MemoryView, stream: u64) -> MemoryView {
        self.spec_written(m, stream)
    }

    open spec fn buffers_current(&self, m: MemoryView) -> bool {
        self.a.validity(m) is Ok && self.b.validity(m) is Ok && self.c.validity(m) is Ok
    }

    open spec fn owns_targets(&self, m: MemoryView) -> bool {
        self.c.is_sole_owner(m)
    }

    proof fn law_dispatch_iff(&self, m: MemoryView) {
    }

    fn op_name(&self) -> (s: &'static str) {
        "geam"
    }

    fn dtype_name(&self) -> (s: &'static str) {
        F64::name()
    }

    fn dispatch(&self, mem: &mut MemoryTable, stream: u64) -> (r: Result<BlasCall, GpuError>) {
        self.plan(mem, stream)
    }
}

/// Symmetric rank-k update `C := alpha * op(A) * op(A)^T + beta * C` of one
/// triangle of `C`.
pub struct SyrkRequest<T: SyrkSupported + ScalarBits> {
    pub uplo: CublasFillMode,
    pub trans: CublasOperation,
    pub n: i32,
    pub k: i32,
    pub alpha: T,
    pub a: GpuRef<T>,
    pub lda: i32,
    pub beta: T,
    pub c: GpuRef<T>,
    pub ldc: i32,
    pub reply: u64,
}

impl<T: SyrkSupported + ScalarBits> SyrkRequest<T> {
    /// The library call to make, or why the request is refused before it.
    pub open spec fn spec_plan(self, m: MemoryView) -> Result<BlasCall, ErrorView> {
        match envelope::valid_2(self.a, self.c, m) {
            Err(e) => Err(e),
            Ok((a_slice, c_slice)) => if !self.c.is_sole_owner(m) {
                Err(
                    ErrorView::Unrecoverable(
                        "SYRK target buffer C has more than one live reference"@,
                    ),
                )
            } else {
                Ok(
                    BlasCall::Syrk {
                        element: T::spec_element(),
                        uplo: self.uplo,
                        trans: self.trans,
                        n: self.n,
                        k: self.k,
                        alpha: blas::scalar_of(self.alpha),
                        a: a_slice.ptr,
                        lda: self.lda,
                        beta: blas::scalar_of(self.beta),
                        c: c_slice.ptr,
                        ldc: self.ldc,
                    }
                )
            },
        }
    }

    /// The memory with the write targets of the request marked as written on the
    /// stream.
    pub open spec fn spec_written(self, m: MemoryView, stream: u64) -> MemoryView {
        m.written(self.c.buffer, stream)
    }

    /// Validate the request and give the library call to make. On success the
    /// write targets remember the stream.
    pub fn plan(&self, mem: &mut MemoryTable, stream: u64) -> (r: Result<BlasCall, GpuError>)
        ensures
            error::outcome(r) == self.spec_plan(old(mem)@),
            final(mem)@ == if r is Ok {
                self.spec_written(old(mem)@, stream)
            } else {
                old(mem)@
            },
    {
        let (a_slice, c_slice) = match access_all_2(&self.a, &self.c, mem) {
            Ok(t) => t,
            Err(e) => {
                return Err(e);
            },
        };
        if !self.c.sole_owner(mem) {
            return Err(
                GpuError::unrecoverable(
                    "SYRK target buffer C has more than one live reference",
                ),
            );
        }
        self.c.record_write(mem, stream);
        Ok(
            BlasCall::Syrk {
                element: T::element(),
                uplo: self.uplo,
                trans: self.trans,
                n: self.n,
                k: self.k,
                alpha: scalar(self.alpha),
                a: a_slice.ptr,
                lda: self.lda,
                beta: scalar(self.beta),
                c: c_slice.ptr,
                ldc: self.ldc,
            }
        )
    }
}

impl BlasDispatch for SyrkRequest<F32> {
    open spec fn spec_op_name(&self) -> Seq<char> {
        "syrk"@
    }

    open spec fn spec_dtype_name(&self) -> Seq<char> {
        F32::spec_element().spec_name()
    }

    open spec fn dispatch_plan(&self, m: MemoryView) -> Result<BlasCall, ErrorView> {
        self.spec_plan(m)
    }

    open spec fn dispatch_written(&self, m: MemoryView, stream: u64) -> MemoryView {
        self.spec_written(m, stream)
    }

    open spec fn buffers_current(&self, m: MemoryView) -> bool {
        self.a.validity(m) is Ok && self.c.validity(m) is Ok
    }

    open spec fn owns_targets(&self, m: MemoryView) -> bool {
        self.c.is_sole_owner(m)
    }

    proof fn law_dispatch_iff(&self, m: MemoryView) {
    }

    fn op_name(&self) -> (s: &'static str) {
        "syrk"
    }

    fn dtype_name(&self) -> (s: &'static str) {
        F32::name()
    }

    fn dispatch(&self, mem: &mut MemoryTable, stream: u64) -> (r: Result<BlasCall, GpuError>) {
        self.plan(mem, stream)
    }
}

impl BlasDispatch for SyrkRequest<F64> {
    open spec fn spec_op_name(&self) -> Seq<char> {
        "syrk"@
    }

    open spec fn spec_dtype_name(&self) -> Seq<char> {
        F64::spec_element().spec_name()
    }

    open spec fn dispatch_plan(&self, m: MemoryView) -> Result<BlasCall, ErrorView> {
        self.spec_plan(m)
    }

    open spec fn dispatch_written(&self, m: MemoryView, stream: u64) -> MemoryView {
        self.spec_written(m, stream)
    }

    open spec fn buffers_current(&self, m: MemoryView) -> bool {
        self.a.validity(m) is Ok && self.c.validity(m) is Ok
    }

    open spec fn owns_targets(&self, m: MemoryView) -> bool {
        self.c.is_sole_owner(m)
    }

    proof fn law_dispatch_iff(&self, m: MemoryView) {
    }

    fn op_name(&self) -> (s: &'static str) {
        "syrk"
    }

    fn dtype_name(&self) -> (s: &'static str) {
        F64::name()
    }

    fn dispatch(&self, mem: &mut MemoryTable, stream: u64) -> (r: Result<BlasCall, GpuError>) {
        self.plan(mem, stream)
    }
}

/// Triangular solve `op(A) * X = alpha * B` or `X * op(A) = alpha * B`, with the
/// solution written over `B`.
pub struct TrsmRequest<T: TrsmSupported + ScalarBits> {
    pub side: CublasSideMode,
    pub uplo: CublasFillMode,
    pub trans: CublasOperation,
    pub diag: CublasDiagType,
    pub m: i32,
    pub n: i32,
    pub alpha: T,
    pub a: GpuRef<T>,
    pub lda: i32,
    pub b: GpuRef<T>,
    pub ldb: i32,
    pub reply: u64,
}

impl<T: TrsmSupported + ScalarBits> TrsmRequest<T> {
    /// The library call to make, or why the request is refused before it.
    pub open spec fn spec_plan(self, m: MemoryView) -> Result<BlasCall, ErrorView> {
        match envelope::valid_2(self.a, self.b, m) {
            Err(e) => Err(e),
            Ok((a_slice, b_slice)) => if !self.b.is_sole_owner(m) {
                Err(
                    ErrorView::Unrecoverable(
                        "TRSM target buffer B has more than one live reference"@,
                    ),
                )
            } else {
                Ok(
                    BlasCall::Trsm {
                        element: T::spec_element(),
                        side: self.side,
                        uplo: self.uplo,
                        trans: self.trans,
                        diag: self.diag,
                        m: self.m,
                        n: self.n,
                        alpha: blas::scalar_of(self.alpha),
                        a: a_slice.ptr,
                        lda: self.lda,
                        b: b_slice.ptr,
                        ldb: self.ldb,
                    }
                )
            },
        }
    }

    /// The memory with the write targets of the request marked as written on the
    /// stream.
    pub open spec fn spec_written(self, m: MemoryView, stream: u64) -> MemoryView {
        m.written(self.b.buffer, stream)
    }

    /// Validate the request and give the library call to make. On success the
    /// write targets remember the stream.
    pub fn plan(&self, mem: &mut MemoryTable, stream: u64) -> (r: Result<BlasCall, GpuError>)
        ensures
            error::outcome(r) == self.spec_plan(old(mem)@),
            final(mem)@ == if r is Ok {
                self.spec_written(old(mem)@, stream)
            } else {
                old(mem)@
            },
    {
        let (a_slice, b_slice) = match access_all_2(&self.a, &self.b, mem) {
            Ok(t) => t,
            Err(e) => {
                return Err(e);
            },
        };
        if !self.b.sole_owner(mem) {
            return Err(
                GpuError::unrecoverable(
                    "TRSM target buffer B has more than one live reference",
                ),
            );
        }
        self.b.record_write(mem, stream);
        Ok(
            BlasCall::Trsm {
                element: T::element(),
                side: self.side,
                uplo: self.uplo,
                trans: self.trans,
                diag: self.diag,
                m: self.m,
                n: self.n,
                alpha: scalar(self.alpha),
                a: a_slice.ptr,
                lda: self.lda,
                b: b_slice.ptr,
                ldb: self.ldb,
            }
        )
    }
}

impl BlasDispatch for TrsmRequest<F32> {
    open spec fn spec_op_name(&self) -> Seq<char> {
        "trsm"@
    }

    open spec fn spec_dtype_name(&self) -> Seq<char> {
        F32::spec_element().spec_name()
    }

    open spec fn dispatch_plan(&self, m: MemoryView) -> Result<BlasCall, ErrorView> {
        self.spec_plan(m)
    }

    open spec fn dispatch_written(&self, m: MemoryView, stream: u64) -> MemoryView {
        self.spec_written(m, stream)
    }

    open spec fn buffers_current(&self, m: MemoryView) -> bool {
        self.a.validity(m) is Ok && self.b.validity(m) is Ok
    }

    open spec fn owns_targets(&self, m: MemoryView) -> bool {
        self.b.is_sole_owner(m)
    }

    proof fn law_dispatch_iff(&self, m: MemoryView) {
    }

    fn op_name(&self) -> (s: &'static str) {
        "trsm"
    }

    fn dtype_name(&self) -> (s: &'static str) {
        F32::name()
    }

    fn dispatch(&self, mem: &mut MemoryTable, stream: u64) -> (r: Result<BlasCall, GpuError>) {
        self.plan(mem, stream)
    }
}

impl BlasDispatch for TrsmRequest<F64> {
    open spec fn spec_op_name(&self) -> Seq<char> {
        "trsm"@
    }

    open spec fn spec_dtype_name(&self) -> Seq<char> {
        F64::spec_element().spec_name()
    }

    open spec fn dispatch_plan(&self, m: MemoryView) -> Result<BlasCall, ErrorView> {
        self.spec_plan(m)
    }

    open spec fn dispatch_written(&self, m: MemoryView, stream: u64) -> MemoryView {
        self.spec_written(m, stream)
    }

    open spec fn buffers_current(&self, m: MemoryView) -> bool {
        self.a.validity(m) is Ok && self.b.validity(m) is Ok
    }

    open spec fn owns_targets(&self, m: MemoryView) -> bool {
        self.b.is_sole_owner(m)
    }

    proof fn law_dispatch_iff(&self, m: MemoryView) {
    }

    fn op_name(&self) -> (s: &'static str) {
        "trsm"
    }

    fn dtype_name(&self) -> (s: &'static str) {
        F64::name()
    }

    fn dispatch(&self, mem: &mut MemoryTable, stream: u64) -> (r: Result<BlasCall, GpuError>) {
        self.plan(mem, stream)
    }
}

/// An accepted `geam` computes `alpha * op(A) + beta * op(B)` in `C`: every argument
/// of the call is the request's argument of the same name. It is made exactly when
/// every buffer is valid and nobody else holds what it writes; the first stale
/// buffer decides the refusal.
pub proof fn law_geam_call<T: GeamSupported + ScalarBits>(req: GeamRequest<T>, m: MemoryView)
    ensures
        match req.spec_plan(m) {
            Ok(call) => {
                &&& req.a.validity(m) is Ok
                &&& req.b.validity(m) is Ok
                &&& req.c.validity(m) is Ok
                &&& m.buffer(req.c.buffer).owners == 1
                &&& call matches BlasCall::Geam { element, trans_a, trans_b, m, n, alpha, a, lda, beta, b, ldb, c, ldc } && {
                    &&& element == T::spec_element()
                    &&& trans_a == req.trans_a
                    &&& trans_b == req.trans_b
                    &&& m == req.m
                    &&& n == req.n
                    &&& lda == req.lda
                    &&& ldb == req.ldb
                    &&& ldc == req.ldc
                    &&& alpha.bits == req.alpha.spec_bits()
                    &&& alpha.data_type == T::spec_element().spec_cuda_data_type()
                    &&& beta.bits == req.beta.spec_bits()
                    &&& beta.data_type == T::spec_element().spec_cuda_data_type()
                    &&& a == req.a.slice.ptr
                    &&& b == req.b.slice.ptr
                    &&& c == req.c.slice.ptr
                }
            },
            Err(e) => {
                &&& req.a.validity(m) matches Err(stale) ==> e == stale
                &&& req.a.validity(m) is Ok ==> (req.b.validity(m) matches Err(stale) ==> e == stale)
                &&& req.a.validity(m) is Ok && req.b.validity(m) is Ok ==> (req.c.validity(m) matches Err(stale) ==> e == stale)
                &&& req.a.validity(m) is Ok && req.b.validity(m) is Ok && req.c.validity(m) is Ok ==> {
                    &&& m.buffer(req.c.buffer).owners != 1
                    &&& e == ErrorView::Unrecoverable(
                        "GEAM target buffer C has more than one live reference"@,
                    )
                }
            },
        },
{
}

/// An accepted `geam` leaves a mark of its stream on `c`, and on nothing else.
pub proof fn law_geam_marks_its_target<T: GeamSupported + ScalarBits>(
    req: GeamRequest<T>,
    m: MemoryView,
    stream: u64,
    other: u64,
)
    ensures
        req.spec_written(m, stream).buffer(req.c.buffer).last_write == Some(stream),
        req.spec_written(m, stream).buffer(req.c.buffer).owners == m.buffer(
            req.c.buffer,
        ).owners,
        other != req.c.buffer ==> req.spec_written(m, stream).buffer(other)
            == m.buffer(other),
        req.spec_written(m, stream).devices == m.devices,
{
}

/// Whatever its element type, a `geam` request is dispatched as the call above, and
/// says so in its labels.
pub proof fn law_geam_dispatch(
    r_f32: GeamRequest<F32>,
    r_f64: GeamRequest<F64>,
    m: MemoryView,
    stream: u64,
)
    ensures
        r_f32.dispatch_plan(m) == r_f32.spec_plan(m),
        r_f32.dispatch_written(m, stream) == r_f32.spec_written(m, stream),
        r_f32.spec_op_name() == "geam"@,
        r_f32.spec_dtype_name() == F32::spec_element().spec_name(),
        r_f64.dispatch_plan(m) == r_f64.spec_plan(m),
        r_f64.dispatch_written(m, stream) == r_f64.spec_written(m, stream),
        r_f64.spec_op_name() == "geam"@,
        r_f64.spec_dtype_name() == F64::spec_element().spec_name(),
{
}

/// An accepted `syrk` computes `alpha * op(A) * op(A)^T + beta * C` in one triangle
/// of `C`: every argument of the call is the request's argument of the same name. It is made exactly when
/// every buffer is valid and nobody else holds what it writes; the first stale
/// buffer decides the refusal.
pub proof fn law_syrk_call<T: SyrkSupported + ScalarBits>(req: SyrkRequest<T>, m: MemoryView)
    ensures
        match req.spec_plan(m) {
            Ok(call) => {
                &&& req.a.validity(m) is Ok
                &&& req.c.validity(m) is Ok
                &&& m.buffer(req.c.buffer).owners == 1
                &&& call matches BlasCall::Syrk { element, uplo, trans, n, k, alpha, a, lda, beta, c, ldc } && {
                    &&& element == T::spec_element()
                    &&& uplo == req.uplo
                    &&& trans == req.trans
                    &&& n == req.n
                    &&& k == req.k
                    &&& lda == req.lda
                    &&& ldc == req.ldc
                    &&& alpha.bits == req.alpha.spec_bits()
                    &&& alpha.data_type == T::spec_element().spec_cuda_data_type()
                    &&& beta.bits == req.beta.spec_bits()
                    &&& beta.data_type == T::spec_element().spec_cuda_data_type()
                    &&& a == req.a.slice.ptr
                    &&& c == req.c.slice.ptr
                }
            },
            Err(e) => {
                &&& req.a.validity(m) matches Err(stale) ==> e == stale
                &&& req.a.validity(m) is Ok ==> (req.c.validity(m) matches Err(stale) ==> e == stale)
                &&& req.a.validity(m) is Ok && req.c.validity(m) is Ok ==> {
                    &&& m.buffer(req.c.buffer).owners != 1
                    &&& e == ErrorView::Unrecoverable(
                        "SYRK target buffer C has more than one live reference"@,
                    )
                }
            },
        },
{
}

/// An accepted `syrk` leaves a mark of its stream on `c`, and on nothing else.
pub proof fn law_syrk_marks_its_target<T: SyrkSupported + ScalarBits>(
    req: SyrkRequest<T>,
    m: MemoryView,
    stream: u64,
    other: u64,
)
    ensures
        req.spec_written(m, stream).buffer(req.c.buffer).last_write == Some(stream),
        req.spec_written(m, stream).buffer(req.c.buffer).owners == m.buffer(
            req.c.buffer,
        ).owners,
        other != req.c.buffer ==> req.spec_written(m, stream).buffer(other)
            == m.buffer(other),
        req.spec_written(m, stream).devices == m.devices,
{
}

/// Whatever its element type, a `syrk` request is dispatched as the call above, and
/// says so in its labels.
pub proof fn law_syrk_dispatch(
    r_f32: SyrkRequest<F32>,
    r_f64: SyrkRequest<F64>,
    m: MemoryView,
    stream: u64,
)
    ensures
        r_f32.dispatch_plan(m) == r_f32.spec_plan(m),
        r_f32.dispatch_written(m, stream) == r_f32.spec_written(m, stream),
        r_f32.spec_op_name() == "syrk"@,
        r_f32.spec_dtype_name() == F32::spec_element().spec_name(),
        r_f64.dispatch_plan(m) == r_f64.spec_plan(m),
        r_f64.dispatch_written(m, stream) == r_f64.spec_written(m, stream),
        r_f64.spec_op_name() == "syrk"@,
        r_f64.spec_dtype_name() == F64::spec_element().spec_name(),
{
}

/// An accepted `trsm` solves for the unknown in `B`: every argument of the call is
/// the request's argument of the same name. It is made exactly when
/// every buffer is valid and nobody else holds what it writes; the first stale
/// buffer decides the refusal.
pub proof fn law_trsm_call<T: TrsmSupported + ScalarBits>(req: TrsmRequest<T>, m: MemoryView)
    ensures
        match req.spec_plan(m) {
            Ok(call) => {
                &&& req.a.validity(m) is Ok
                &&& req.b.validity(m) is Ok
                &&& m.buffer(req.b.buffer).owners == 1
                &&& call matches BlasCall::Trsm { element, side, uplo, trans, diag, m, n, alpha, a, lda, b, ldb } && {
                    &&& element == T::spec_element()
                    &&& side == req.side
                    &&& uplo == req.uplo
                    &&& trans == req.trans
                    &&& diag == req.diag
                    &&& m == req.m
                    &&& n == req.n
                    &&& lda == req.lda
                    &&& ldb == req.ldb
                    &&& alpha.bits == req.alpha.spec_bits()
                    &&& alpha.data_type == T::spec_element().spec_cuda_data_type()
                    &&& a == req.a.slice.ptr
                    &&& b == req.b.slice.ptr
                }
            },
            Err(e) => {
                &&& req.a.validity(m) matches Err(stale) ==> e == stale
                &&& req.a.validity(m) is Ok ==> (req.b.validity(m) matches Err(stale) ==> e == stale)
                &&& req.a.validity(m) is Ok && req.b.validity(m) is Ok ==> {
                    &&& m.buffer(req.b.buffer).owners != 1
                    &&& e == ErrorView::Unrecoverable(
                        "TRSM target buffer B has more than one live reference"@,
                    )
                }
            },
        },
{
}

/// An accepted `trsm` leaves a mark of its stream on `b`, and on nothing else.
pub proof fn law_trsm_marks_its_target<T: TrsmSupported + ScalarBits>(
    req: TrsmRequest<T>,
    m: MemoryView,
    stream: u64,
    other: u64,
)
    ensures
        req.spec_written(m, stream).buffer(req.b.buffer).last_write == Some(stream),
        req.spec_written(m, stream).buffer(req.b.buffer).owners == m.buffer(
            req.b.buffer,
        ).owners,
        other != req.b.buffer ==> req.spec_written(m, stream).buffer(other)
            == m.buffer(other),
        req.spec_written(m, stream).devices == m.devices,
{
}

/// Whatever its element type, a `trsm` request is dispatched as the call above, and
/// says so in its labels.
pub proof fn law_trsm_dispatch(
    r_f32: TrsmRequest<F32>,
    r_f64: TrsmRequest<F64>,
    m: MemoryView,
    stream: u64,
)
    ensures
        r_f32.dispatch_plan(m) == r_f32.spec_plan(m),
        r_f32.dispatch_written(m, stream) == r_f32.spec_written(m, stream),
        r_f32.spec_op_name() == "trsm"@,
        r_f32.spec_dtype_name() == F32::spec_element().spec_name(),
        r_f64.dispatch_plan(m) == r_f64.spec_plan(m),
        r_f64.dispatch_written(m, stream) == r_f64.spec_written(m, stream),
        r_f64.spec_op_name() == "trsm"@,
        r_f64.spec_dtype_name() == F64::spec_element().spec_name(),
{
}

} // verus!
