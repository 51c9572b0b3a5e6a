//! Matrix product `C := alpha * A * B + beta * C`, column-major.

use vstd::prelude::*;

use crate::dtype::F32;
use crate::error::{ErrorView, GpuError};
use crate::error;
use crate::gpu_ref::GpuRef;
use crate::graph::{GraphOp, GraphRecordCtx, RecordCall, SgemmArgs};

verus! {

/// Matrix product `C := alpha * A * B + beta * C`, column-major. It can be recorded once.
pub struct SgemmOp {
    inner: Option<SgemmArgs>,
}

impl SgemmOp {
    /// What is still to be recorded.
    pub closed spec fn pending(&self) -> Option<SgemmArgs> {
        self.inner
    }

    pub fn new(
        a: GpuRef<F32>,
        b: GpuRef<F32>,
        c: GpuRef<F32>,
        m: i32,
        n: i32,
        k: i32,
        alpha: F32,
        beta: F32,
    ) -> (op: SgemmOp)
        ensures
            op.pending() == Some(SgemmArgs { a, b, c, m, n, k, alpha, beta }),
    {
        SgemmOp { inner: Some(SgemmArgs { a, b, c, m, n, k, alpha, beta }) }
    }

    /// The outside work that recording calls for, or the error.
    pub open spec fn recording(&self, ctx: GraphRecordCtx) -> Result<RecordCall, ErrorView> {
        match ctx.needed_stream() {
            Err(e) => Err(e),
            Ok(stream) => match ctx.blas {
                None => Err(
                    ErrorView::Unrecoverable(
                        "SgemmOp::record: cuBLAS handle not available in ctx"@,
                    ),
                ),
                Some(blas) => match self.pending() {
                    None => Err(ErrorView::Unrecoverable("SgemmOp::record: already consumed"@)),
                    Some(op) => Ok(RecordCall::Sgemm { stream, blas, args: op }),
                },
            },
        }
    }

    /// The operation after a recording: a recording that goes ahead uses it
    /// up.
    pub open spec fn after(&self, ctx: GraphRecordCtx) -> SgemmOp {
        if self.recording(ctx) is Ok {
            self.spent()
        } else {
            *self
        }
    }

    /// The operation with nothing left to record.
    pub closed spec fn spent(&self) -> SgemmOp {
        SgemmOp { inner: None }
    }
}

impl GraphOp for SgemmOp {
    fn record(&mut self, ctx: &GraphRecordCtx) -> (r: Result<RecordCall, GpuError>)
        ensures
            error::outcome(r) == old(self).recording(*ctx),
            *final(self) == old(self).after(*ctx),
            r is Ok ==> final(self).pending() is None,
    {
        let stream = match ctx.require_stream() {
            Ok(s) => s,
            Err(e) => {
                return Err(e);
            },
        };
        let blas = match ctx.blas {
            Some(h) => h,
            None => {
                return Err(
                    GpuError::unrecoverable(
                        "SgemmOp::record: cuBLAS handle not available in ctx",
                    ),
                );
            },
        };
        match self.inner.take() {
            None => Err(GpuError::unrecoverable("SgemmOp::record: already consumed")),
            Some(op) => Ok(RecordCall::Sgemm { stream, blas, args: op }),
        }
    }

    fn op_name(&self) -> (s: &'static str)
        ensures
            s@ == "graph::sgemm"@,
    {
        "graph::sgemm"
    }
}

/// An operation that was recorded is refused from then on.
pub proof fn law_sgemm_recorded_once(op: SgemmOp, first: GraphRecordCtx, again: GraphRecordCtx)
    requires
        op.recording(first) is Ok,
    ensures
        op.after(first).recording(again) is Err,
        op.after(first).after(again) == op.after(first),
{
}

/// A product that was made for some matrices, a shape and scalars is recorded, on
/// the context's stream and with its cuBLAS handle, as the product of those
/// matrices, with that shape and those scalars. It is recorded exactly when the
/// context has both.
pub proof fn law_sgemm_records_its_operands(
    a: GpuRef<F32>,
    b: GpuRef<F32>,
    c: GpuRef<F32>,
    m: i32,
    n: i32,
    k: i32,
    alpha: F32,
    beta: F32,
    op: SgemmOp,
    ctx: GraphRecordCtx,
)
    requires
        call_ensures(SgemmOp::new, (a, b, c, m, n, k, alpha, beta), op),
    ensures
        match op.recording(ctx) {
            Ok(call) => call matches RecordCall::Sgemm { stream, blas, args } && {
                &&& ctx.stream == Some(stream)
                &&& ctx.blas == Some(blas)
                &&& args.a == a
                &&& args.b == b
                &&& args.c == c
                &&& args.m == m
                &&& args.n == n
                &&& args.k == k
                &&& args.alpha == alpha
                &&& args.beta == beta
            },
            Err(e) => if ctx.stream is None {
                e == ErrorView::Unrecoverable("GraphRecordCtx: no captured stream available"@)
            } else {
                ctx.blas is None && e == ErrorView::Unrecoverable(
                    "SgemmOp::record: cuBLAS handle not available in ctx"@,
                )
            },
        },
{
}

/// A product that was recorded gives its reason when it is recorded again.
pub proof fn law_sgemm_says_it_was_recorded(
    op: SgemmOp,
    first: GraphRecordCtx,
    again: GraphRecordCtx,
)
    requires
        op.recording(first) is Ok,
        again.stream is Some,
        again.blas is Some,
    ensures
        op.after(first).recording(again) == Err::<RecordCall, ErrorView>(
            ErrorView::Unrecoverable("SgemmOp::record: already consumed"@),
        ),
{
}

} // verus!
