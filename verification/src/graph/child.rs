//! Graphs as nodes of other graphs.

use std::sync::Arc;

use vstd::prelude::*;

use crate::driver_call;
use crate::driver_call::{driver_reply, CallOutcome};
use crate::error::{ErrorView, GpuError};
use crate::error;
use crate::gpu_ref::MemoryTable;
use crate::graph::{GraphHandle, GraphOpRecord, GraphRecordCtx, RecordCall, LIB};

verus! {

/// A captured graph to be added to another one.
pub struct ChildGraphOp {
    pub child: GraphHandle,
}

impl ChildGraphOp {
    /// What recording comes to.
    pub open spec fn spec_record(&self, ctx: GraphRecordCtx) -> Result<RecordCall, ErrorView> {
        Ok(
            RecordCall::AddChildGraph {
                parent: ctx.parent(),
                child: match self.child.spec_graph() {
                    Some(c) => c.graph,
                    None => 0,
                },
            },
        )
    }
}

impl GraphOpRecord for ChildGraphOp {
    fn record(&self, ctx: &GraphRecordCtx, mem: &MemoryTable) -> (r: Result<RecordCall, GpuError>)
        ensures
            error::outcome(r) == self.spec_record(*ctx),
    {
        Ok(
            RecordCall::AddChildGraph {
                parent: ctx.parent_graph(),
                child: self.child.cu_graph(),
            },
        )
    }
}

/// The answer of adding the child, from what the driver call came to.
pub fn child_added(outcome: CallOutcome<()>) -> (r: Result<(), GpuError>)
    ensures
        error::outcome(r) == driver_call::answer(
            LIB@,
            "cuGraphAddChildGraphNode: "@,
            "ChildGraphOp::record: CUDA driver not loadable"@,
            outcome,
        ),
{
    driver_reply(
        LIB,
        "cuGraphAddChildGraphNode: ",
        "ChildGraphOp::record: CUDA driver not loadable",
        outcome,
    )
}

/// The operation that adds a captured graph.
pub fn child_graph_op(child: GraphHandle) -> (op: ChildGraphOp)
    ensures
        op.child == child,
{
    ChildGraphOp { child }
}

/// A child graph that a pipeline keeps hold of, to rebind its parameters later.
pub struct ChildGraphInsertion {
    pub op: ChildGraphOp,
    pub keep_alive: Arc<()>,
}

/// A captured graph is added to the context's parent graph, and not the other way
/// round; zero stands for a graph that is not there.
pub proof fn law_child_goes_into_the_parent(
    child: GraphHandle,
    op: ChildGraphOp,
    ctx: GraphRecordCtx,
)
    requires
        call_ensures(child_graph_op, (child,), op),
    ensures
        op.spec_record(ctx) matches Ok(RecordCall::AddChildGraph { parent, child: added }) && {
            &&& ctx.parent_graph matches Some(g) ==> parent == g
            &&& ctx.parent_graph is None ==> parent == 0
            &&& child.spec_graph() matches Some(g) ==> added == g.graph
            &&& child.spec_graph() is None ==> added == 0
        },
{
}

} // verus!
