//! Routing of the collective actor.

use vstd::prelude::*;

use crate::dtype::F32;
use crate::error::{ErrorView, GpuError};
use crate::gpu_ref::{GpuRef, MemoryTable, MemoryView};
use crate::kernel::collective::capabilities;
use crate::kernel::collective::capabilities::NcclCapabilities;
use crate::kernel::collective::requests::{
    AllReduceRequest, BroadcastRequest, CollectiveBody, CollectiveDispatch, CollectiveOp,
};
use crate::kernel::collective::run::{CollStep, CollectiveRun, Overrun};
use crate::kernel::collective::{DispatchDType, ReduceOp};
use crate::steps::RunView;

verus! {

/// Messages to a rank. `AllReduceF32` and `BroadcastF32` are older spellings of
/// typed requests.
pub enum CollectiveMsg {
    Op(CollectiveOp),
    BeginGroup { reply: u64 },
    EndGroup { reply: u64 },
    QueryCapabilities { reply: u64 },
    AllReduceF32 { tensor: GpuRef<F32>, op: ReduceOp, reply: u64 },
    BroadcastF32 { data: GpuRef<F32>, root: usize, reply: u64 },
}

/// How the actor runs: as a rank of a world, or without NCCL.
#[derive(Debug, Clone, Copy, PartialEq, Eq, Structural)]
pub enum CollectiveInner {
    Real { device_id: u32, world_size: usize },
    Mock,
}

/// The collective actor.
pub struct CollectiveActor {
    pub inner: CollectiveInner,
}

/// What the runtime is to do for a message.
pub enum CollectiveAction {
    /// Make the calls and answer with the run's outcome.
    Run(CollectiveRun),
    /// Answer with the error.
    Reply(GpuError),
    /// Answer with the capabilities.
    ReplyCapabilities(NcclCapabilities),
    /// Query the library's version and answer with its capabilities.
    Probe,
    /// Drop the request without an answer; its dtype is for the log.
    DropOp { dtype: DispatchDType },
}

/// The action runs this plan, or answers with its refusal.
pub open spec fn action_of(
    plan: Result<(Seq<CollStep>, Option<Overrun>), ErrorView>,
    action: CollectiveAction,
) -> bool {
    match plan {
        Err(e) => action matches CollectiveAction::Reply(err) && err@ == e,
        Ok((steps, ending)) => action matches CollectiveAction::Run(run) && run@ == (RunView {
            steps,
            done: 0,
            failed: false,
        }) && run@.wf() && run.spec_ending() == ending,
    }
}

/// The action answers that the actor has no NCCL.
pub open spec fn refused_in_mock(action: CollectiveAction) -> bool {
    action matches CollectiveAction::Reply(e) && e@ == ErrorView::Unrecoverable(
        "CollectiveActor in mock mode"@,
    )
}

/// The body of the request that a message stands for, if it is one.
pub open spec fn body_of(msg: CollectiveMsg) -> Option<CollectiveBody> {
    match msg {
        CollectiveMsg::Op(op) => Some(op.body),
        CollectiveMsg::AllReduceF32 { tensor, op, .. } => Some(
            CollectiveBody::AllReduce { tensor: tensor.spec_erased(), op },
        ),
        CollectiveMsg::BroadcastF32 { data, root, .. } => Some(
            CollectiveBody::Broadcast { data: data.spec_erased(), root },
        ),
        _ => None,
    }
}

fn to_action(r: Result<CollectiveRun, GpuError>) -> (a: CollectiveAction)
    ensures
        match r {
            Ok(run) => a == CollectiveAction::Run(run),
            Err(e) => a == CollectiveAction::Reply(e),
        },
{
    match r {
        Ok(run) => CollectiveAction::Run(run),
        Err(e) => CollectiveAction::Reply(e),
    }
}

fn mock_error() -> (a: CollectiveAction)
    ensures
        refused_in_mock(a),
{
    CollectiveAction::Reply(GpuError::unrecoverable("CollectiveActor in mock mode"))
}

impl CollectiveActor {
    /// A rank on a device, in a world of this many ranks.
    pub fn for_rank(device_id: u32, world_size: usize) -> (a: CollectiveActor)
        ensures
            a.inner == (CollectiveInner::Real { device_id, world_size }),
    {
        CollectiveActor { inner: CollectiveInner::Real { device_id, world_size } }
    }

    /// An actor without NCCL.
    pub fn mock() -> (a: CollectiveActor)
        ensures
            a.inner == CollectiveInner::Mock,
    {
        CollectiveActor { inner: CollectiveInner::Mock }
    }

    /// The device ids to warn about when a request's buffers are on another
    /// device than the rank: the rank's, then the request's. The request is
    /// dispatched all the same, and its own validation decides.
    pub open spec fn misplaced(
        inner: CollectiveInner,
        msg: CollectiveMsg,
        m: MemoryView,
    ) -> Option<(u32, u32)> {
        match (inner, msg) {
            (CollectiveInner::Real { device_id, .. }, CollectiveMsg::Op(op)) => match op.body.spec_device_id(m) {
                Some(dev) => if dev != device_id {
                    Some((device_id, dev))
                } else {
                    None
                },
                None => None,
            },
            _ => None,
        }
    }

    /// Take one message. Besides the action, the result holds the device ids
    /// of a misplaced request, for the log.
    pub fn handle(&self, msg: &CollectiveMsg, mem: &MemoryTable) -> (r: (
        CollectiveAction,
        Option<(u32, u32)>,
    ))
        ensures
            r.1 == CollectiveActor::misplaced(self.inner, *msg, mem@),
            match self.inner {
                CollectiveInner::Mock => match *msg {
                    CollectiveMsg::Op(op) => r.0 == (CollectiveAction::DropOp { dtype: op.dtype }),
                    CollectiveMsg::QueryCapabilities { .. } => r.0
                        == CollectiveAction::ReplyCapabilities(capabilities::spec_zeroed()),
                    _ => refused_in_mock(r.0),
                },
                CollectiveInner::Real { world_size, .. } => match *msg {
                    CollectiveMsg::BeginGroup { .. } => action_of(
                        Ok((seq![CollStep::GroupStart], None)),
                        r.0,
                    ),
                    CollectiveMsg::EndGroup { .. } => action_of(
                        Ok((seq![CollStep::GroupEnd], None)),
                        r.0,
                    ),
                    CollectiveMsg::QueryCapabilities { .. } => r.0 == CollectiveAction::Probe,
                    _ => action_of(body_of(*msg)->0.plan(world_size, mem@), r.0),
                },
            },
    {
        match self.inner {
            CollectiveInner::Mock => {
                let action = match msg {
                    CollectiveMsg::Op(op) => CollectiveAction::DropOp { dtype: op.dtype },
                    CollectiveMsg::QueryCapabilities { .. } => CollectiveAction::ReplyCapabilities(
                        NcclCapabilities::zeroed(),
                    ),
                    CollectiveMsg::BeginGroup { .. } => mock_error(),
                    CollectiveMsg::EndGroup { .. } => mock_error(),
                    CollectiveMsg::AllReduceF32 { .. } => mock_error(),
                    CollectiveMsg::BroadcastF32 { .. } => mock_error(),
                };
                (action, None)
            },
            CollectiveInner::Real { device_id, world_size } => match msg {
                CollectiveMsg::Op(op) => {
                    let misplaced = match op.body.device_id(mem) {
                        Some(dev) => if dev != device_id {
                            Some((device_id, dev))
                        } else {
                            None
                        },
                        None => None,
                    };
                    (to_action(op.body.dispatch(world_size, mem)), misplaced)
                },
                CollectiveMsg::BeginGroup { .. } => (
                    CollectiveAction::Run(CollectiveRun::single(CollStep::GroupStart)),
                    None,
                ),
                CollectiveMsg::EndGroup { .. } => (
                    CollectiveAction::Run(CollectiveRun::single(CollStep::GroupEnd)),
                    None,
                ),
                CollectiveMsg::QueryCapabilities { .. } => (CollectiveAction::Probe, None),
                CollectiveMsg::AllReduceF32 { tensor, op, reply } => {
                    let req = AllReduceRequest::<F32> {
                        tensor: tensor.same(),
                        op: *op,
                        reply: *reply,
                    };
                    (to_action(req.op().body.dispatch(world_size, mem)), None)
                },
                CollectiveMsg::BroadcastF32 { data, root, reply } => {
                    let req = BroadcastRequest::<F32> {
                        data: data.same(),
                        root: *root,
                        reply: *reply,
                    };
                    (to_action(req.op().body.dispatch(world_size, mem)), None)
                },
            },
        }
    }
}

/// The message to panic with when a rank is started again: its communicator is
/// gone, and only a rebuild of the whole world gives it a new one.
pub fn consumed_comm() -> (msg: &'static str)
    ensures
        msg@
            == "Unrecoverable: CollectiveActor restart with consumed Comm \u{2014} NcclWorldActor must rebuild the world"@,
{
    "Unrecoverable: CollectiveActor restart with consumed Comm \u{2014} NcclWorldActor must rebuild the world"
}

/// The older spellings are the reduction of their tensor with their operator and
/// the broadcast of their buffer from their root.
pub proof fn law_older_collectives(
    tensor: GpuRef<F32>,
    op: ReduceOp,
    root: usize,
    reply: u64,
    world_size: usize,
    m: MemoryView,
)
    ensures
        body_of(CollectiveMsg::AllReduceF32 { tensor, op, reply }) matches Some(body) && match body.plan(
            world_size,
            m,
        ) {
            Ok((steps, ending)) => ending is None && steps == seq![
                CollStep::AllReduceInPlace { buf: tensor.slice, op },
            ],
            Err(_) => tensor.validity(m) is Err || m.buffer(tensor.buffer).owners != 1,
        },
        body_of(CollectiveMsg::BroadcastF32 { data: tensor, root, reply }) matches Some(body)
            && match body.plan(world_size, m) {
            Ok((steps, ending)) => ending is None && steps.len() == 1 && (
            steps[0] matches CollStep::BroadcastInPlace { buf, root: from } && buf == tensor.slice
                && from as int == root as int),
            Err(_) => tensor.validity(m) is Err || m.buffer(tensor.buffer).owners != 1 || root
                > i32::MAX,
        },
{
}

/// A request is handed to the library as it is.
pub proof fn law_requests_keep_their_body(op: CollectiveOp)
    ensures
        body_of(CollectiveMsg::Op(op)) == Some(op.body),
{
}

/// A rank warns exactly of requests whose buffers are on another device, and names
/// its own device first.
pub proof fn law_warns_of_other_devices(
    device_id: u32,
    world_size: usize,
    op: CollectiveOp,
    m: MemoryView,
)
    ensures
        ({
            let warned = CollectiveActor::misplaced(
                CollectiveInner::Real { device_id, world_size },
                CollectiveMsg::Op(op),
                m,
            );
            &&& warned is Some <==> (op.body.spec_device_id(m) matches Some(dev) && dev
                != device_id)
            &&& warned matches Some((own, other)) ==> own == device_id && Some(other)
                == op.body.spec_device_id(m)
        }),
        CollectiveActor::misplaced(CollectiveInner::Mock, CollectiveMsg::Op(op), m) is None,
{
}

/// The action for a plan is to run exactly its calls from the first on, with its
/// ending, or to answer with its refusal.
pub proof fn law_runs_the_planned_calls(
    plan: Result<(Seq<CollStep>, Option<Overrun>), ErrorView>,
    action: CollectiveAction,
)
    requires
        action_of(plan, action),
    ensures
        match plan {
            Ok((steps, ending)) => action matches CollectiveAction::Run(run) && run@.steps == steps
                && run@.done == 0 && !run@.failed && run.spec_ending() == ending,
            Err(e) => action matches CollectiveAction::Reply(err) && err@ == e,
        },
{
}

/// Without NCCL the answer says so.
pub proof fn law_mock_refusal(action: CollectiveAction)
    requires
        refused_in_mock(action),
    ensures
        action matches CollectiveAction::Reply(e) && e@ == ErrorView::Unrecoverable(
            "CollectiveActor in mock mode"@,
        ),
{
}

} // verus!
