//! Fill with uniform random numbers.

use vstd::prelude::*;

use crate::dtype::F32;
use crate::error::{ErrorView, GpuError};
use crate::error;
use crate::gpu_ref::GpuRef;
use crate::graph::{GraphOp, GraphRecordCtx, RecordCall};

verus! {

/// The operation's buffers.
pub struct RngFillUniformArgs {
    pub dst: GpuRef<F32>,
}

/// Fill with uniform random numbers. It can be recorded once.
pub struct RngFillUniformOp {
    inner: Option<RngFillUniformArgs>,
}

impl RngFillUniformOp {
    /// What is still to be recorded.
    pub closed spec fn pending(&self) -> Option<RngFillUniformArgs> {
        self.inner
    }

    pub fn new(dst: GpuRef<F32>) -> (op: RngFillUniformOp)
        ensures
            op.pending() == Some(RngFillUniformArgs { dst }),
    {
        RngFillUniformOp { inner: Some(RngFillUniformArgs { dst }) }
    }

    /// The outside work that recording calls for, or the error.
    pub open spec fn recording(&self, ctx: GraphRecordCtx) -> Result<RecordCall, ErrorView> {
        match ctx.needed_stream() {
            Err(e) => Err(e),
            Ok(stream) => match ctx.rng {
                None => Err(
                    ErrorView::Unrecoverable(
                        "RngFillUniformOp::record: cuRAND handle not available in ctx"@,
                    ),
                ),
                Some(rng) => match self.pending() {
                    None => Err(ErrorView::Unrecoverable("RngFillUniformOp::record: already consumed"@)),
                    Some(op) => Ok(RecordCall::RngFillUniform { stream, rng, dst: op.dst }),
                },
            },
        }
    }

    /// The operation after a recording: a recording that goes ahead uses it
    /// up.
    pub open spec fn after(&self, ctx: GraphRecordCtx) -> RngFillUniformOp {
        if self.recording(ctx) is Ok {
            self.spent()
        } else {
            *self
        }
    }

    /// The operation with nothing left to record.
    pub closed spec fn spent(&self) -> RngFillUniformOp {
        RngFillUniformOp { inner: None }
    }
}

impl GraphOp for RngFillUniformOp {
    fn record(&mut self, ctx: &GraphRecordCtx) -> (r: Result<RecordCall, GpuError>)
        ensures
            error::outcome(r) == old(self).recording(*ctx),
            *final(self) == old(self).after(*ctx),
            r is Ok ==> final(self).pending() is None,
    {
        let stream = match ctx.require_stream() {
            Ok(s) => s,
            Err(e) => {
                return Err(e);
            },
        };
        let rng = match ctx.rng {
            Some(h) => h,
            None => {
                return Err(
                    GpuError::unrecoverable(
                        "RngFillUniformOp::record: cuRAND handle not available in ctx",
                    ),
                );
            },
        };
        match self.inner.take() {
            None => Err(GpuError::unrecoverable("RngFillUniformOp::record: already consumed")),
            Some(op) => Ok(RecordCall::RngFillUniform { stream, rng, dst: op.dst }),
        }
    }

    fn op_name(&self) -> (s: &'static str)
        ensures
            s@ == "graph::rng_fill_uniform"@,
    {
        "graph::rng_fill_uniform"
    }
}

/// An operation that was recorded is refused from then on.
pub proof fn law_rng_fill_recorded_once(op: RngFillUniformOp, first: GraphRecordCtx, again: GraphRecordCtx)
    requires
        op.recording(first) is Ok,
    ensures
        op.after(first).recording(again) is Err,
        op.after(first).after(again) == op.after(first),
{
}

/// A fill that was made for a buffer is recorded, on the context's stream and with
/// its cuRAND handle, as a fill of that buffer. It is recorded exactly when the
/// context has both.
pub proof fn law_rng_fill_fills_its_buffer(
    dst: GpuRef<F32>,
    op: RngFillUniformOp,
    ctx: GraphRecordCtx,
)
    requires
        call_ensures(RngFillUniformOp::new, (dst,), op),
    ensures
        match op.recording(ctx) {
            Ok(call) => call matches RecordCall::RngFillUniform { stream, rng, dst: to } && {
                &&& ctx.stream == Some(stream)
                &&& ctx.rng == Some(rng)
                &&& to == dst
            },
            Err(e) => if ctx.stream is None {
                e == ErrorView::Unrecoverable("GraphRecordCtx: no captured stream available"@)
            } else {
                ctx.rng is None && e == ErrorView::Unrecoverable(
                    "RngFillUniformOp::record: cuRAND handle not available in ctx"@,
                )
            },
        },
{
}

/// A fill that was recorded gives its reason when it is recorded again.
pub proof fn law_rng_fill_says_it_was_recorded(
    op: RngFillUniformOp,
    first: GraphRecordCtx,
    again: GraphRecordCtx,
)
    requires
        op.recording(first) is Ok,
        again.stream is Some,
        again.rng is Some,
    ensures
        op.after(first).recording(again) == Err::<RecordCall, ErrorView>(
            ErrorView::Unrecoverable("RngFillUniformOp::record: already consumed"@),
        ),
{
}

} // verus!
