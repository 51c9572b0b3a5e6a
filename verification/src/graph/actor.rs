//! Routing of the graph actor.

use vstd::prelude::*;

use crate::device::DeviceState;
use crate::error::{ErrorView, GpuError};
use crate::error;
use crate::graph::capture;
use crate::graph::capture::RecordRun;
use crate::graph::{CapturedGraph, GraphHandle, GraphRecordCtx, LIB};
use crate::text::join2;

verus! {

/// Messages to the graph actor. A script stays with the runtime; the message
/// says how many operations it has.
pub enum GraphMsg {
    /// Record a script.
    Record { ops: usize, reply: u64 },
    /// Replay a captured graph.
    Launch { handle: GraphHandle, reply: u64 },
    /// Install the plan for recorded Fourier transforms.
    SetFftPlan { plan: u64, reply: u64 },
}

/// What the runtime is to do for a message.
pub enum GraphAction {
    /// Record the script on the captured stream, as the run says.
    Record { run: RecordRun, ctx: GraphRecordCtx },
    /// Launch the graph, and answer once the stream is done.
    Launch(CapturedGraph),
    /// Answer that the plan was taken.
    Acknowledge,
    /// Answer with the error.
    Reply(GpuError),
}

/// The graph actor: on a stream with the library handles that could be opened,
/// or without a GPU.
#[derive(Debug, Clone, Copy, PartialEq, Eq, Structural)]
pub enum GraphActor {
    Real { stream: u64, blas: Option<u64>, rng: Option<u64>, fft: Option<u64> },
    Mock,
}

/// The graph to launch, or why it is refused: it was captured before the
/// device's context was rebuilt, or there is none.
pub open spec fn launch_plan(handle: GraphHandle, generation: u64) -> Result<
    CapturedGraph,
    ErrorView,
> {
    if handle.spec_generation() != generation {
        Err(ErrorView::GpuRefStale("graph captured against rebuilt context"@))
    } else {
        match handle.spec_graph() {
            Some(g) => Ok(g),
            None => Err(
                ErrorView::Unrecoverable(
                    "GraphActor::Launch: synthetic GraphHandle has no captured graph"@,
                ),
            ),
        }
    }
}

/// The graph to launch, or why it is refused.
pub fn plan_launch(handle: &GraphHandle, state: &DeviceState) -> (r: Result<
    CapturedGraph,
    GpuError,
>)
    ensures
        error::outcome(r) == launch_plan(*handle, state.generation),
{
    if handle.generation() != state.generation {
        return Err(GpuError::GpuRefStale("graph captured against rebuilt context"));
    }
    match handle.captured() {
        Some(g) => Ok(g),
        None => Err(
            GpuError::unrecoverable(
                "GraphActor::Launch: synthetic GraphHandle has no captured graph",
            ),
        ),
    }
}

/// The error of a launch that the driver refused.
pub fn launch_error(text: &str) -> (e: GpuError)
    ensures
        e@ == (ErrorView::LibraryError { lib: LIB@, msg: "launch: "@ + text@ }),
{
    GpuError::LibraryError { lib: LIB, msg: join2("launch: ", text) }
}

impl GraphActor {
    /// Actor on a stream. A library handle that could not be opened is left
    /// out, and operations that need it are refused.
    pub fn new(stream: u64, blas: Option<u64>, rng: Option<u64>) -> (a: GraphActor)
        ensures
            a == (GraphActor::Real { stream, blas, rng, fft: None }),
    {
        GraphActor::Real { stream, blas, rng, fft: None }
    }

    /// Actor without a GPU.
    pub fn mock() -> (a: GraphActor)
        ensures
            a == GraphActor::Mock,
    {
        GraphActor::Mock
    }

    /// What operations can record with.
    pub open spec fn record_ctx(self) -> GraphRecordCtx {
        match self {
            GraphActor::Real { stream, blas, rng, fft } => GraphRecordCtx {
                stream: Some(stream),
                blas,
                rng,
                fft,
                parent_graph: None,
            },
            GraphActor::Mock => GraphRecordCtx {
                stream: None,
                blas: None,
                rng: None,
                fft: None,
                parent_graph: None,
            },
        }
    }

    /// Take one message.
    pub fn handle(&mut self, msg: &GraphMsg, state: &DeviceState) -> (action: GraphAction)
        ensures
            match (*old(self), *msg) {
                (GraphActor::Mock, GraphMsg::SetFftPlan { .. }) => action is Acknowledge,
                (GraphActor::Mock, _) => action matches GraphAction::Reply(e) && e@
                    == ErrorView::Unrecoverable("GraphActor in mock mode"@),
                (GraphActor::Real { .. }, GraphMsg::Record { ops, .. }) => action matches
                    GraphAction::Record { run, ctx } && run@ == capture::after(
                    ops as nat,
                    Seq::empty(),
                ) && run@.wf() && ctx == old(self).record_ctx(),
                (GraphActor::Real { .. }, GraphMsg::Launch { handle, .. }) => match launch_plan(
                    handle,
                    state.generation,
                ) {
                    Ok(g) => action == GraphAction::Launch(g),
                    Err(e) => action matches GraphAction::Reply(err) && err@ == e,
                },
                (GraphActor::Real { .. }, GraphMsg::SetFftPlan { .. }) => action is Acknowledge,
            },
            *final(self) == match (*old(self), *msg) {
                (
                    GraphActor::Real { stream, blas, rng, .. },
                    GraphMsg::SetFftPlan { plan, .. },
                ) => GraphActor::Real { stream, blas, rng, fft: Some(plan) },
                _ => *old(self),
            },
    {
        match *self {
            GraphActor::Mock => match msg {
                GraphMsg::SetFftPlan { .. } => GraphAction::Acknowledge,
                _ => GraphAction::Reply(GpuError::unrecoverable("GraphActor in mock mode")),
            },
            GraphActor::Real { stream, blas, rng, fft } => match msg {
                GraphMsg::Record { ops, .. } => GraphAction::Record {
                    run: RecordRun::new(*ops),
                    ctx: GraphRecordCtx {
                        stream: Some(stream),
                        blas,
                        rng,
                        fft,
                        parent_graph: None,
                    },
                },
                GraphMsg::Launch { handle, .. } => match plan_launch(handle, state) {
                    Ok(g) => GraphAction::Launch(g),
                    Err(e) => GraphAction::Reply(e),
                },
                GraphMsg::SetFftPlan { plan, .. } => {
                    *self = GraphActor::Real { stream, blas, rng, fft: Some(*plan) };
                    GraphAction::Acknowledge
                },
            },
        }
    }
}

/// A graph that was captured before the device's context was rebuilt is never
/// launched, and a fresh one is.
pub proof fn law_rebuilt_context_refuses_graphs(h: GraphHandle, generation: u64)
    ensures
        h.spec_generation() != generation ==> launch_plan(h, generation) is Err,
        h.spec_generation() == generation && h.spec_graph() is Some ==> launch_plan(h, generation)
            == Ok::<CapturedGraph, ErrorView>(h.spec_graph()->0),
{
}

/// A graph is refused in the words of its own fault: first that the context was
/// rebuilt, then that there is nothing to launch.
pub proof fn law_launch_refusals(h: GraphHandle, generation: u64)
    ensures
        h.spec_generation() != generation ==> launch_plan(h, generation) == Err::<
            CapturedGraph,
            ErrorView,
        >(ErrorView::GpuRefStale("graph captured against rebuilt context"@)),
        h.spec_generation() == generation && h.spec_graph() is None ==> launch_plan(h, generation)
            == Err::<CapturedGraph, ErrorView>(
            ErrorView::Unrecoverable(
                "GraphActor::Launch: synthetic GraphHandle has no captured graph"@,
            ),
        ),
{
}

/// A recording goes on the actor's own stream, with its own library handles and
/// nothing else.
pub proof fn law_records_with_own_handles(
    stream: u64,
    blas: Option<u64>,
    rng: Option<u64>,
    fft: Option<u64>,
)
    ensures
        ({
            let ctx = GraphActor::Real { stream, blas, rng, fft }.record_ctx();
            &&& ctx.stream == Some(stream)
            &&& ctx.blas == blas
            &&& ctx.rng == rng
            &&& ctx.fft == fft
            &&& ctx.parent_graph is None
        }),
        GraphActor::Mock.record_ctx().stream is None,
{
}

} // verus!
