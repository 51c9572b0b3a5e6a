//! Fourier transform of real data in one dimension.

use vstd::prelude::*;

use crate::dtype::{C32, F32};
use crate::error::{ErrorView, GpuError};
use crate::error;
use crate::gpu_ref::GpuRef;
use crate::graph::{GraphOp, GraphRecordCtx, RecordCall};

verus! {

/// The operation's buffers.
pub struct FftR2CArgs {
    pub src: GpuRef<F32>,
    pub dst: GpuRef<C32>,
}

/// Fourier transform of real data in one dimension. It can be recorded once.
pub struct FftR2COp {
    inner: Option<FftR2CArgs>,
}

impl FftR2COp {
    /// What is still to be recorded.
    pub closed spec fn pending(&self) -> Option<FftR2CArgs> {
        self.inner
    }

    pub fn new(src: GpuRef<F32>, dst: GpuRef<C32>) -> (op: FftR2COp)
        ensures
            op.pending() == Some(FftR2CArgs { src, dst }),
    {
        FftR2COp { inner: Some(FftR2CArgs { src, dst }) }
    }

    /// The outside work that recording calls for, or the error.
    pub open spec fn recording(&self, ctx: GraphRecordCtx) -> Result<RecordCall, ErrorView> {
        match ctx.needed_stream() {
            Err(e) => Err(e),
            Ok(stream) => match ctx.fft {
                None => Err(
                    ErrorView::Unrecoverable(
                        "FftR2COp::record: no cuFFT plan installed; call GraphMsg::SetFftPlan first"@,
                    ),
                ),
                Some(plan) => match self.pending() {
                    None => Err(ErrorView::Unrecoverable("FftR2COp::record: already consumed"@)),
                    Some(op) => Ok(RecordCall::FftR2C { stream, plan, src: op.src, dst: op.dst }),
                },
            },
        }
    }

    /// The operation after a recording: a recording that goes ahead uses it
    /// up.
    pub open spec fn after(&self, ctx: GraphRecordCtx) -> FftR2COp {
        if self.recording(ctx) is Ok {
            self.spent()
        } else {
            *self
        }
    }

    /// The operation with nothing left to record.
    pub closed spec fn spent(&self) -> FftR2COp {
        FftR2COp { inner: None }
    }
}

impl GraphOp for FftR2COp {
    fn record(&mut self, ctx: &GraphRecordCtx) -> (r: Result<RecordCall, GpuError>)
        ensures
            error::outcome(r) == old(self).recording(*ctx),
            *final(self) == old(self).after(*ctx),
            r is Ok ==> final(self).pending() is None,
    {
        let stream = match ctx.require_stream() {
            Ok(s) => s,
            Err(e) => {
                return Err(e);
            },
        };
        let plan = match ctx.fft {
            Some(h) => h,
            None => {
                return Err(
                    GpuError::unrecoverable(
                        "FftR2COp::record: no cuFFT plan installed; call GraphMsg::SetFftPlan first",
                    ),
                );
            },
        };
        match self.inner.take() {
            None => Err(GpuError::unrecoverable("FftR2COp::record: already consumed")),
            Some(op) => Ok(RecordCall::FftR2C { stream, plan, src: op.src, dst: op.dst }),
        }
    }

    fn op_name(&self) -> (s: &'static str)
        ensures
            s@ == "graph::fft_r2c"@,
    {
        "graph::fft_r2c"
    }
}

/// An operation that was recorded is refused from then on.
pub proof fn law_fft_recorded_once(op: FftR2COp, first: GraphRecordCtx, again: GraphRecordCtx)
    requires
        op.recording(first) is Ok,
    ensures
        op.after(first).recording(again) is Err,
        op.after(first).after(again) == op.after(first),
{
}

/// A transform that was made for a source and a destination is recorded, on the
/// context's stream and with its cuFFT plan, from that source to that destination.
/// It is recorded exactly when the context has both.
pub proof fn law_fft_transforms_src_to_dst(
    src: GpuRef<F32>,
    dst: GpuRef<C32>,
    op: FftR2COp,
    ctx: GraphRecordCtx,
)
    requires
        call_ensures(FftR2COp::new, (src, dst), op),
    ensures
        match op.recording(ctx) {
            Ok(call) => call matches RecordCall::FftR2C { stream, plan, src: from, dst: to } && {
                &&& ctx.stream == Some(stream)
                &&& ctx.fft == Some(plan)
                &&& from == src
                &&& to == dst
            },
            Err(e) => if ctx.stream is None {
                e == ErrorView::Unrecoverable("GraphRecordCtx: no captured stream available"@)
            } else {
                ctx.fft is None && e == ErrorView::Unrecoverable(
                    "FftR2COp::record: no cuFFT plan installed; call GraphMsg::SetFftPlan first"@,
                )
            },
        },
{
}

/// A transform that was recorded gives its reason when it is recorded again.
pub proof fn law_fft_says_it_was_recorded(
    op: FftR2COp,
    first: GraphRecordCtx,
    again: GraphRecordCtx,
)
    requires
        op.recording(first) is Ok,
        again.stream is Some,
        again.fft is Some,
    ensures
        op.after(first).recording(again) == Err::<RecordCall, ErrorView>(
            ErrorView::Unrecoverable("FftR2COp::record: already consumed"@),
        ),
{
}

} // verus!
