//! Routing of the cuDNN actor.

use vstd::prelude::*;
use vstd::string::*;

use crate::dtype::F32;
use crate::error::{ErrorView, GpuError};
use crate::error;
use crate::gpu_ref::GpuRef;
use crate::kernel::cudnn::activation::ActivationKind;
use crate::kernel::cudnn::dispatch;
use crate::kernel::cudnn::dispatch::{not_available, CudnnDispatch};
use crate::kernel::cudnn::plan_cache::{CachedPlan, PlanCache, PlanKeyView, DEFAULT_PLAN_CACHE_SIZE};
use crate::text::join2;

verus! {

/// Parameters of a convolution in two dimensions, of the older surface.
#[derive(Debug, Clone, Copy, PartialEq, Eq)]
pub struct ConvParams {
    pub pad: [i32; 2],
    pub stride: [i32; 2],
    pub dilation: [i32; 2],
}

/// Convolution of the older surface: single precision, channel second.
pub struct ConvForwardRequest {
    pub x: GpuRef<F32>,
    pub x_dims: [i32; 4],
    pub w: GpuRef<F32>,
    pub w_dims: [i32; 4],
    pub y: GpuRef<F32>,
    pub y_dims: [i32; 4],
    pub conv: ConvParams,
    pub alpha: F32,
    pub beta: F32,
    pub reply: u64,
}

/// Activation of the older surface.
pub struct ActivationRequest {
    pub kind: ActivationKind,
    pub x: GpuRef<F32>,
    pub y: GpuRef<F32>,
    pub dims: [i32; 4],
    pub alpha: F32,
    pub beta: F32,
    pub reply: u64,
}

/// Softmax of the older surface.
pub struct SoftmaxRequest {
    pub x: GpuRef<F32>,
    pub y: GpuRef<F32>,
    pub dims: [i32; 4],
    pub alpha: F32,
    pub beta: F32,
    pub reply: u64,
}

/// Messages to the cuDNN actor. All but `Op` are of the older surface and
/// answer with a pointer to their successors.
pub enum CudnnMsg<D: CudnnDispatch> {
    Op(D),
    ConvForward(ConvForwardRequest),
    Activation(ActivationRequest),
    Softmax(SoftmaxRequest),
}

/// What the runtime is to do for a message.
pub enum CudnnAction {
    /// Answer the caller.
    Reply(Result<(), GpuError>),
    /// Drop the request without an answer.
    DropOp,
}

/// What an actor on a GPU works with.
pub struct CudnnReal {
    pub stream: u64,
    pub plan_cache: PlanCache,
    /// Device memory for plans that ask for some.
    pub workspace: Option<u64>,
}

/// How the actor runs: on a stream, or without a GPU.
pub enum CudnnInner {
    Real(CudnnReal),
    Mock,
}

/// The cuDNN actor.
pub struct CudnnActor {
    pub inner: CudnnInner,
}

/// The answer to a message of the older surface: where it is served now.
pub open spec fn legacy_answer<D: CudnnDispatch>(msg: CudnnMsg<D>) -> Result<(), ErrorView> {
    match msg {
        CudnnMsg::ConvForward(_) => dispatch::unavailable(
            "ConvForward (legacy) is deprecated; send CudnnMsg::Op(ConvFwdRequest<f32>) for v9 frontend dispatch"@,
        ),
        CudnnMsg::Activation(_) => dispatch::unavailable(
            "Activation (legacy) is deprecated; send CudnnMsg::Op(ActivationFwdRequest<f32>)"@,
        ),
        _ => dispatch::unavailable(
            "Softmax (legacy) is deprecated; send CudnnMsg::Op(SoftmaxFwdRequest<f32>)"@,
        ),
    }
}

impl CudnnActor {
    /// Actor on a stream, without plans.
    pub fn new(stream: u64) -> (a: CudnnActor)
        ensures
            a.inner matches CudnnInner::Real(live) && live.stream == stream && live.workspace is None
                && live.plan_cache.wf() && live.plan_cache@ == Seq::<
                (PlanKeyView, CachedPlan),
            >::empty() && live.plan_cache.capacity() == DEFAULT_PLAN_CACHE_SIZE,
    {
        CudnnActor {
            inner: CudnnInner::Real(
                CudnnReal {
                    stream,
                    plan_cache: PlanCache::new(DEFAULT_PLAN_CACHE_SIZE),
                    workspace: None,
                },
            ),
        }
    }

    /// Actor without a GPU.
    pub fn mock() -> (a: CudnnActor)
        ensures
            a.inner is Mock,
    {
        CudnnActor { inner: CudnnInner::Mock }
    }

    /// The message to panic with when the library cannot be opened on the
    /// actor's stream.
    pub fn handle_failure(text: &str) -> (msg: String)
        ensures
            msg@ == "ContextPoisoned: Cudnn::new failed: "@ + text@,
    {
        join2("ContextPoisoned: Cudnn::new failed: ", text)
    }

    /// Take one message.
    pub fn handle<D: CudnnDispatch>(&self, msg: &CudnnMsg<D>) -> (action: CudnnAction)
        ensures
            match (self.inner, *msg) {
                (CudnnInner::Mock, CudnnMsg::Op(_)) => action is DropOp,
                (CudnnInner::Mock, _) => action matches CudnnAction::Reply(a) && error::outcome(a)
                    == Err::<(), ErrorView>(
                    ErrorView::Unrecoverable("CudnnActor in mock mode"@),
                ),
                (CudnnInner::Real(_), CudnnMsg::Op(op)) => action matches CudnnAction::Reply(a)
                    && call_ensures(D::dispatch, (&op,), a),
                (CudnnInner::Real(_), _) => action matches CudnnAction::Reply(a) && error::outcome(a)
                    == legacy_answer(*msg),
            },
    {
        match &self.inner {
            CudnnInner::Mock => match msg {
                CudnnMsg::Op(_) => CudnnAction::DropOp,
                _ => CudnnAction::Reply(Err(GpuError::unrecoverable("CudnnActor in mock mode"))),
            },
            CudnnInner::Real(_) => match msg {
                CudnnMsg::Op(op) => CudnnAction::Reply(op.dispatch()),
                CudnnMsg::ConvForward(_) => CudnnAction::Reply(
                    not_available(
                        "ConvForward (legacy) is deprecated; send CudnnMsg::Op(ConvFwdRequest<f32>) for v9 frontend dispatch",
                    ),
                ),
                CudnnMsg::Activation(_) => CudnnAction::Reply(
                    not_available(
                        "Activation (legacy) is deprecated; send CudnnMsg::Op(ActivationFwdRequest<f32>)",
                    ),
                ),
                CudnnMsg::Softmax(_) => CudnnAction::Reply(
                    not_available(
                        "Softmax (legacy) is deprecated; send CudnnMsg::Op(SoftmaxFwdRequest<f32>)",
                    ),
                ),
            },
        }
    }
}

/// Messages of the older surface are answered with an error of the library that
/// says where they are served now.
pub proof fn law_older_messages_are_pointed_on<D: CudnnDispatch>(msg: CudnnMsg<D>)
    ensures
        msg is ConvForward ==> legacy_answer(msg) == Err::<(), ErrorView>(
            (ErrorView::LibraryError {
                lib: "cudnn"@,
                msg:
                    "ConvForward (legacy) is deprecated; send CudnnMsg::Op(ConvFwdRequest<f32>) for v9 frontend dispatch"@,
            }),
        ),
        msg is Activation ==> legacy_answer(msg) == Err::<(), ErrorView>(
            (ErrorView::LibraryError {
                lib: "cudnn"@,
                msg:
                    "Activation (legacy) is deprecated; send CudnnMsg::Op(ActivationFwdRequest<f32>)"@,
            }),
        ),
        msg is Softmax ==> legacy_answer(msg) == Err::<(), ErrorView>(
            (ErrorView::LibraryError {
                lib: "cudnn"@,
                msg:
                    "Softmax (legacy) is deprecated; send CudnnMsg::Op(SoftmaxFwdRequest<f32>)"@,
            }),
        ),
{
}

} // verus!
