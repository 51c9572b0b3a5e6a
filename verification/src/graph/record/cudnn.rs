//! cuDNN operations for recording. Their shapes and buffers are checked; the
//! recording itself is not available yet.

use vstd::prelude::*;
use vstd::string::*;

use crate::dtype::F32;
use crate::error::{ErrorView, GpuError};
use crate::error;
use crate::gpu_ref::{GpuRef, MemoryTable, MemoryView};
use crate::graph::{GraphOpRecord, GraphRecordCtx, RecordCall};
use crate::kernel::cudnn::{ActivationKind, ConvParams};
use crate::text;
use crate::text::{join2, signed_text};

verus! {

/// Convolution.
pub struct ConvForwardOp {
    pub x: GpuRef<F32>,
    pub x_dims: [i32; 4],
    pub w: GpuRef<F32>,
    pub w_dims: [i32; 4],
    pub y: GpuRef<F32>,
    pub y_dims: [i32; 4],
    pub conv: ConvParams,
    pub alpha: F32,
    pub beta: F32,
}

/// Activation.
pub struct ActivationOp {
    pub kind: ActivationKind,
    pub x: GpuRef<F32>,
    pub y: GpuRef<F32>,
    pub dims: [i32; 4],
    pub alpha: F32,
    pub beta: F32,
}

/// Softmax.
pub struct SoftmaxOp {
    pub x: GpuRef<F32>,
    pub y: GpuRef<F32>,
    pub dims: [i32; 4],
    pub alpha: F32,
    pub beta: F32,
}

/// Four extents in brackets, separated by commas.
pub open spec fn dims_text(d: [i32; 4]) -> Seq<char> {
    "["@ + text::signed_decimal(d[0] as int) + ", "@ + text::signed_decimal(d[1] as int) + ", "@
        + text::signed_decimal(d[2] as int) + ", "@ + text::signed_decimal(d[3] as int) + "]"@
}

/// Every extent is positive.
pub open spec fn positive(d: [i32; 4]) -> bool {
    d[0] > 0 && d[1] > 0 && d[2] > 0 && d[3] > 0
}

/// Whether the extents are positive, or the error that lists them.
pub open spec fn dims_verdict(d: [i32; 4], who: Seq<char>) -> Result<(), ErrorView> {
    if positive(d) {
        Ok(())
    } else {
        Err(ErrorView::Unrecoverable(who + ": non-positive dim in "@ + dims_text(d)))
    }
}

/// Check that the extents are positive. `who` starts the error's text.
pub fn validate_dims(d: &[i32; 4], who: &str) -> (r: Result<(), GpuError>)
    ensures
        error::outcome(r) == dims_verdict(*d, who@),
{
    if d[0] > 0 && d[1] > 0 && d[2] > 0 && d[3] > 0 {
        return Ok(());
    }
    let d0 = signed_text(d[0] as i64);
    let d1 = signed_text(d[1] as i64);
    let d2 = signed_text(d[2] as i64);
    let d3 = signed_text(d[3] as i64);
    let mut list = join2("[", d0.as_str());
    list.append(", ");
    list.append(d1.as_str());
    list.append(", ");
    list.append(d2.as_str());
    list.append(", ");
    list.append(d3.as_str());
    list.append("]");
    let mut msg = join2(who, ": non-positive dim in ");
    msg.append(list.as_str());
    Err(GpuError::Unrecoverable(msg))
}

/// The result with its value dropped.
pub open spec fn unit<T>(r: Result<T, ErrorView>) -> Result<(), ErrorView> {
    match r {
        Ok(_) => Ok(()),
        Err(e) => Err(e),
    }
}

/// The first error of two checks in a row.
pub open spec fn both(a: Result<(), ErrorView>, b: Result<(), ErrorView>) -> Result<(), ErrorView> {
    match a {
        Err(e) => Err(e),
        Ok(_) => b,
    }
}

/// The answer of an operation whose checks came to `checks`.
pub open spec fn not_recorded(checks: Result<(), ErrorView>, why: Seq<char>) -> Result<
    RecordCall,
    ErrorView,
> {
    match checks {
        Err(e) => Err(e),
        Ok(_) => Err(ErrorView::Unrecoverable(why)),
    }
}

impl ConvForwardOp {
    /// What recording comes to.
    pub open spec fn spec_record(&self, ctx: GraphRecordCtx, m: MemoryView) -> Result<
        RecordCall,
        ErrorView,
    > {
        not_recorded(
            both(
                dims_verdict(self.x_dims, "conv: x_dims"@),
                both(
                    dims_verdict(self.w_dims, "conv: w_dims"@),
                    both(
                        dims_verdict(self.y_dims, "conv: y_dims"@),
                        both(
                            unit(self.x.validity(m)),
                            both(unit(self.w.validity(m)), unit(self.y.validity(m))),
                        ),
                    ),
                ),
            ),
            "graph::record::cudnn::ConvForward: cuDNN capture-mode entry not yet wired (Phase 3 surface only)"@,
        )
    }
}

impl GraphOpRecord for ConvForwardOp {
    fn record(&self, ctx: &GraphRecordCtx, mem: &MemoryTable) -> (r: Result<
        RecordCall,
        GpuError,
    >)
        ensures
            error::outcome(r) == self.spec_record(*ctx, mem@),
    {
        if let Err(e) = validate_dims(&self.x_dims, "conv: x_dims") {
            return Err(e);
        }
        if let Err(e) = validate_dims(&self.w_dims, "conv: w_dims") {
            return Err(e);
        }
        if let Err(e) = validate_dims(&self.y_dims, "conv: y_dims") {
            return Err(e);
        }
        if let Err(e) = self.x.access(mem) {
            return Err(e);
        }
        if let Err(e) = self.w.access(mem) {
            return Err(e);
        }
        if let Err(e) = self.y.access(mem) {
            return Err(e);
        }
        Err(
            GpuError::unrecoverable(
                "graph::record::cudnn::ConvForward: cuDNN capture-mode entry not yet wired (Phase 3 surface only)",
            ),
        )
    }
}

impl ActivationOp {
    /// What recording comes to.
    pub open spec fn spec_record(&self, ctx: GraphRecordCtx, m: MemoryView) -> Result<
        RecordCall,
        ErrorView,
    > {
        not_recorded(
            both(
                dims_verdict(self.dims, "activation: dims"@),
                both(unit(self.x.validity(m)), unit(self.y.validity(m))),
            ),
            "graph::record::cudnn::Activation: cuDNN capture-mode entry not yet wired"@,
        )
    }
}

impl GraphOpRecord for ActivationOp {
    fn record(&self, ctx: &GraphRecordCtx, mem: &MemoryTable) -> (r: Result<
        RecordCall,
        GpuError,
    >)
        ensures
            error::outcome(r) == self.spec_record(*ctx, mem@),
    {
        if let Err(e) = validate_dims(&self.dims, "activation: dims") {
            return Err(e);
        }
        if let Err(e) = self.x.access(mem) {
            return Err(e);
        }
        if let Err(e) = self.y.access(mem) {
            return Err(e);
        }
        Err(
            GpuError::unrecoverable(
                "graph::record::cudnn::Activation: cuDNN capture-mode entry not yet wired",
            ),
        )
    }
}

impl SoftmaxOp {
    /// What recording comes to.
    pub open spec fn spec_record(&self, ctx: GraphRecordCtx, m: MemoryView) -> Result<
        RecordCall,
        ErrorView,
    > {
        not_recorded(
            both(
                dims_verdict(self.dims, "softmax: dims"@),
                both(unit(self.x.validity(m)), unit(self.y.validity(m))),
            ),
            "graph::record::cudnn::Softmax: cuDNN capture-mode entry not yet wired"@,
        )
    }
}

impl GraphOpRecord for SoftmaxOp {
    fn record(&self, ctx: &GraphRecordCtx, mem: &MemoryTable) -> (r: Result<
        RecordCall,
        GpuError,
    >)
        ensures
            error::outcome(r) == self.spec_record(*ctx, mem@),
    {
        if let Err(e) = validate_dims(&self.dims, "softmax: dims") {
            return Err(e);
        }
        if let Err(e) = self.x.access(mem) {
            return Err(e);
        }
        if let Err(e) = self.y.access(mem) {
            return Err(e);
        }
        Err(
            GpuError::unrecoverable(
                "graph::record::cudnn::Softmax: cuDNN capture-mode entry not yet wired",
            ),
        )
    }
}

/// An operation that cannot be recorded yet says so only once its extents are
/// positive and its buffers valid; before that the first fault is the answer,
/// extents first.
pub proof fn law_convolution_is_checked(op: ConvForwardOp, ctx: GraphRecordCtx, m: MemoryView)
    ensures
        op.spec_record(ctx, m) matches Err(e) && {
            &&& !positive(op.x_dims) ==> e == ErrorView::Unrecoverable(
                "conv: x_dims"@ + ": non-positive dim in "@ + dims_text(op.x_dims),
            )
            &&& positive(op.x_dims) && !positive(op.w_dims) ==> e == ErrorView::Unrecoverable(
                "conv: w_dims"@ + ": non-positive dim in "@ + dims_text(op.w_dims),
            )
            &&& positive(op.x_dims) && positive(op.w_dims) && !positive(op.y_dims) ==> e
                == ErrorView::Unrecoverable(
                "conv: y_dims"@ + ": non-positive dim in "@ + dims_text(op.y_dims),
            )
            &&& positive(op.x_dims) && positive(op.w_dims) && positive(op.y_dims) ==> {
                &&& op.x.validity(m) matches Err(stale) ==> e == stale
                &&& op.x.validity(m) is Ok ==> (op.w.validity(m) matches Err(stale) ==> e == stale)
                &&& op.x.validity(m) is Ok && op.w.validity(m) is Ok ==> (op.y.validity(
                    m,
                ) matches Err(stale) ==> e == stale)
                &&& op.x.validity(m) is Ok && op.w.validity(m) is Ok && op.y.validity(m) is Ok ==> e
                    == ErrorView::Unrecoverable(
                    "graph::record::cudnn::ConvForward: cuDNN capture-mode entry not yet wired (Phase 3 surface only)"@,
                )
            }
        },
{
}

/// Activation and softmax are checked alike: the extents, then the input, then the
/// output.
pub proof fn law_elementwise_operations_are_checked(
    act: ActivationOp,
    soft: SoftmaxOp,
    ctx: GraphRecordCtx,
    m: MemoryView,
)
    ensures
        act.spec_record(ctx, m) matches Err(e) && {
            &&& !positive(act.dims) ==> e == ErrorView::Unrecoverable(
                "activation: dims"@ + ": non-positive dim in "@ + dims_text(act.dims),
            )
            &&& positive(act.dims) ==> (act.x.validity(m) matches Err(stale) ==> e == stale)
            &&& positive(act.dims) && act.x.validity(m) is Ok ==> (act.y.validity(m) matches Err(
                stale,
            ) ==> e == stale)
            &&& positive(act.dims) && act.x.validity(m) is Ok && act.y.validity(m) is Ok ==> e
                == ErrorView::Unrecoverable(
                "graph::record::cudnn::Activation: cuDNN capture-mode entry not yet wired"@,
            )
        },
        soft.spec_record(ctx, m) matches Err(e) && {
            &&& !positive(soft.dims) ==> e == ErrorView::Unrecoverable(
                "softmax: dims"@ + ": non-positive dim in "@ + dims_text(soft.dims),
            )
            &&& positive(soft.dims) ==> (soft.x.validity(m) matches Err(stale) ==> e == stale)
            &&& positive(soft.dims) && soft.x.validity(m) is Ok ==> (soft.y.validity(
                m,
            ) matches Err(stale) ==> e == stale)
            &&& positive(soft.dims) && soft.x.validity(m) is Ok && soft.y.validity(m) is Ok ==> e
                == ErrorView::Unrecoverable(
                "graph::record::cudnn::Softmax: cuDNN capture-mode entry not yet wired"@,
            )
        },
{
}

/// Extents are positive exactly when each of them is.
pub proof fn law_positive_extents(d: [i32; 4])
    ensures
        positive(d) <==> forall|i: int| 0 <= i < 4 ==> #[trigger] d@[i] > 0,
{
    if forall|i: int| 0 <= i < 4 ==> #[trigger] d@[i] > 0 {
        assert(d@[0] > 0 && d@[1] > 0 && d@[2] > 0 && d@[3] > 0);
    }
}

} // verus!
