//! Copy from device to device.

use vstd::prelude::*;

use crate::dtype::F32;
use crate::error::{ErrorView, GpuError};
use crate::error;
use crate::gpu_ref::GpuRef;
use crate::graph::{GraphOp, GraphRecordCtx, RecordCall};

verus! {

/// The operation's buffers.
pub struct MemcpyArgs {
    pub src: GpuRef<F32>,
    pub dst: GpuRef<F32>,
}

/// Copy from device to device. It can be recorded once.
pub struct MemcpyOp {
    inner: Option<MemcpyArgs>,
}

impl MemcpyOp {
    /// What is still to be recorded.
    pub closed spec fn pending(&self) -> Option<MemcpyArgs> {
        self.inner
    }

    pub fn new(src: GpuRef<F32>, dst: GpuRef<F32>) -> (op: MemcpyOp)
        ensures
            op.pending() == Some(MemcpyArgs { src, dst }),
    {
        MemcpyOp { inner: Some(MemcpyArgs { src, dst }) }
    }

    /// The outside work that recording calls for, or the error.
    pub open spec fn recording(&self, ctx: GraphRecordCtx) -> Result<RecordCall, ErrorView> {
        match ctx.needed_stream() {
            Err(e) => Err(e),
            Ok(stream) => match self.pending() {
                None => Err(ErrorView::Unrecoverable("MemcpyOp::record: already consumed"@)),
                Some(op) => Ok(RecordCall::Memcpy { stream, src: op.src, dst: op.dst }),
            },
        }
    }

    /// The operation after a recording: a recording that goes ahead uses it
    /// up.
    pub open spec fn after(&self, ctx: GraphRecordCtx) -> MemcpyOp {
        if self.recording(ctx) is Ok {
            self.spent()
        } else {
            *self
        }
    }

    /// The operation with nothing left to record.
    pub closed spec fn spent(&self) -> MemcpyOp {
        MemcpyOp { inner: None }
    }
}

impl GraphOp for MemcpyOp {
    fn record(&mut self, ctx: &GraphRecordCtx) -> (r: Result<RecordCall, GpuError>)
        ensures
            error::outcome(r) == old(self).recording(*ctx),
            *final(self) == old(self).after(*ctx),
            r is Ok ==> final(self).pending() is None,
    {
        let stream = match ctx.require_stream() {
            Ok(s) => s,
            Err(e) => {
                return Err(e);
            },
        };
        match self.inner.take() {
            None => Err(GpuError::unrecoverable("MemcpyOp::record: already consumed")),
            Some(op) => Ok(RecordCall::Memcpy { stream, src: op.src, dst: op.dst }),
        }
    }

    fn op_name(&self) -> (s: &'static str)
        ensures
            s@ == "graph::memcpy"@,
    {
        "graph::memcpy"
    }
}

/// An operation that was recorded is refused from then on.
pub proof fn law_memcpy_recorded_once(op: MemcpyOp, first: GraphRecordCtx, again: GraphRecordCtx)
    requires
        op.recording(first) is Ok,
    ensures
        op.after(first).recording(again) is Err,
        op.after(first).after(again) == op.after(first),
{
}

/// A copy that was made for a source and a destination is recorded, on the
/// context's stream, as a copy from that source to that destination. It is
/// recorded exactly when the context has a stream.
pub proof fn law_memcpy_copies_src_to_dst(
    src: GpuRef<F32>,
    dst: GpuRef<F32>,
    op: MemcpyOp,
    ctx: GraphRecordCtx,
)
    requires
        call_ensures(MemcpyOp::new, (src, dst), op),
    ensures
        match op.recording(ctx) {
            Ok(call) => call matches RecordCall::Memcpy { stream, src: from, dst: to } && {
                &&& ctx.stream == Some(stream)
                &&& from == src
                &&& to == dst
            },
            Err(e) => ctx.stream is None && e == ErrorView::Unrecoverable(
                "GraphRecordCtx: no captured stream available"@,
            ),
        },
{
}

/// A copy that was recorded gives its reason when it is recorded again.
pub proof fn law_memcpy_says_it_was_recorded(
    op: MemcpyOp,
    first: GraphRecordCtx,
    again: GraphRecordCtx,
)
    requires
        op.recording(first) is Ok,
        again.stream is Some,
    ensures
        op.after(first).recording(again) == Err::<RecordCall, ErrorView>(
            ErrorView::Unrecoverable("MemcpyOp::record: already consumed"@),
        ),
{
}

} // verus!
