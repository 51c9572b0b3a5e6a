//! Routing of the BLAS actor.

use vstd::prelude::*;

use crate::device::SgemmRequest;
use crate::dtype::{Bf16, CudaDataType, Element, F16, F32, F64, ScalarBits};
use crate::error::{ErrorView, GpuError};
use crate::error;
use crate::gpu_ref::{MemoryTable, MemoryView};
use crate::kernel::blas::{
    scalar, AnyGemm, AnyGemmStridedBatched, AnyL1, AnyL2, AnyL3, BlasCall, BlasDispatch,
    CublasOperation, GemmConfig, GemmRequest, LIB,
};
use crate::kernel::envelope;
use crate::kernel::envelope::access_all_3;
use crate::text::join2;

verus! {

/// Messages to the BLAS actor. `Sgemm` is the older spelling of a
/// single-precision product.
pub enum BlasMsg {
    Gemm(AnyGemm),
    L1(AnyL1),
    L2(AnyL2),
    L3(AnyL3),
    GemmStridedBatched(AnyGemmStridedBatched),
    Sgemm(SgemmRequest),
}

impl BlasMsg {
    /// Matrix product message.
    pub fn gemm(req: AnyGemm) -> (m: BlasMsg)
        ensures
            m == BlasMsg::Gemm(req),
    {
        BlasMsg::Gemm(req)
    }

    /// Strided-batched product message.
    pub fn gemm_strided_batched(req: AnyGemmStridedBatched) -> (m: BlasMsg)
        ensures
            m == BlasMsg::GemmStridedBatched(req),
    {
        BlasMsg::GemmStridedBatched(req)
    }
}

impl GemmRequest<F32> {
    /// The request as a message.
    pub fn into_msg(self) -> (m: BlasMsg)
        ensures
            m == BlasMsg::Gemm(AnyGemm::F32(self)),
    {
        BlasMsg::Gemm(AnyGemm::F32(self))
    }
}

impl GemmRequest<F64> {
    /// The request as a message.
    pub fn into_msg(self) -> (m: BlasMsg)
        ensures
            m == BlasMsg::Gemm(AnyGemm::F64(self)),
    {
        BlasMsg::Gemm(AnyGemm::F64(self))
    }
}

impl GemmRequest<F16> {
    /// The request as a message.
    pub fn into_msg(self) -> (m: BlasMsg)
        ensures
            m == BlasMsg::Gemm(AnyGemm::F16(self)),
    {
        BlasMsg::Gemm(AnyGemm::F16(self))
    }
}

impl GemmRequest<Bf16> {
    /// The request as a message.
    pub fn into_msg(self) -> (m: BlasMsg)
        ensures
            m == BlasMsg::Gemm(AnyGemm::Bf16(self)),
    {
        BlasMsg::Gemm(AnyGemm::Bf16(self))
    }
}

/// The product that a single-precision request without options stands for:
/// no transposition, dense column-major operands.
pub open spec fn typed_sgemm(req: SgemmRequest) -> GemmRequest<F32> {
    GemmRequest {
        a: req.a,
        b: req.b,
        c: req.c,
        m: req.m,
        n: req.n,
        k: req.k,
        alpha: req.alpha,
        beta: req.beta,
        trans_a: CublasOperation::N,
        trans_b: CublasOperation::N,
        lda: req.m,
        ldb: req.k,
        ldc: req.m,
        reply: req.reply,
    }
}

/// What the runtime is to do for a message.
pub enum BlasAction {
    /// Make the call and answer with its outcome.
    Launch(BlasCall),
    /// Answer with the error.
    Reply(GpuError),
    /// Drop the request without an answer; its operation is named for the log.
    DropOp { op_name: &'static str },
}

/// How the actor runs: on a stream, or without a GPU.
#[derive(Debug, Clone, Copy, PartialEq, Eq, Structural)]
pub enum BlasInner {
    Real { stream: u64 },
    Mock,
}

/// The BLAS actor.
pub struct BlasActor {
    pub inner: BlasInner,
}

/// The action is what the plan of a dispatched request calls for.
pub open spec fn action_of(plan: Result<BlasCall, ErrorView>, action: BlasAction) -> bool {
    match plan {
        Ok(call) => action matches BlasAction::Launch(c) && c == call,
        Err(e) => action matches BlasAction::Reply(err) && err@ == e,
    }
}

/// The action drops an operation of this name.
pub open spec fn drops(action: BlasAction, op: Seq<char>) -> bool {
    action matches BlasAction::DropOp { op_name } && op_name@ == op
}

/// What becomes of a message, and the memory after it: a request that is
/// launched has its write targets marked.
pub open spec fn handled(
    inner: BlasInner,
    msg: BlasMsg,
    before: MemoryView,
    after: MemoryView,
    action: BlasAction,
) -> bool {
    match inner {
        BlasInner::Mock => after == before && match msg {
            BlasMsg::Gemm(d) => drops(action, d.spec_op_name()),
            BlasMsg::L1(d) => drops(action, d.spec_op_name()),
            BlasMsg::L2(d) => drops(action, d.spec_op_name()),
            BlasMsg::L3(d) => drops(action, d.spec_op_name()),
            BlasMsg::GemmStridedBatched(d) => drops(action, d.spec_op_name()),
            BlasMsg::Sgemm(_) => action matches BlasAction::Reply(e) && e@
                == ErrorView::Unrecoverable("Sgemm not supported in mock mode"@),
        },
        BlasInner::Real { stream } => match msg {
            BlasMsg::Gemm(d) => action_of(d.dispatch_plan(before), action) && after == (
            if d.dispatch_plan(before) is Ok {
                d.dispatch_written(before, stream)
            } else {
                before
            }),
            BlasMsg::L1(d) => action_of(d.dispatch_plan(before), action) && after == (
            if d.dispatch_plan(before) is Ok {
                d.dispatch_written(before, stream)
            } else {
                before
            }),
            BlasMsg::L2(d) => action_of(d.dispatch_plan(before), action) && after == (
            if d.dispatch_plan(before) is Ok {
                d.dispatch_written(before, stream)
            } else {
                before
            }),
            BlasMsg::L3(d) => action_of(d.dispatch_plan(before), action) && after == (
            if d.dispatch_plan(before) is Ok {
                d.dispatch_written(before, stream)
            } else {
                before
            }),
            BlasMsg::GemmStridedBatched(d) => action_of(d.dispatch_plan(before), action) && after == (
            if d.dispatch_plan(before) is Ok {
                d.dispatch_written(before, stream)
            } else {
                before
            }),
            BlasMsg::Sgemm(req) => action_of(typed_sgemm(req).spec_plan(before), action) && after
                == (if typed_sgemm(req).spec_plan(before) is Ok {
                before.written(req.c.buffer, stream)
            } else {
                before
            }),
        },
    }
}

fn to_action(r: Result<BlasCall, GpuError>) -> (a: BlasAction)
    ensures
        action_of(error::outcome(r), a),
{
    match r {
        Ok(call) => BlasAction::Launch(call),
        Err(e) => BlasAction::Reply(e),
    }
}

impl BlasActor {
    /// Actor on a stream.
    pub fn new(stream: u64) -> (a: BlasActor)
        ensures
            a.inner == (BlasInner::Real { stream }),
    {
        BlasActor { inner: BlasInner::Real { stream } }
    }

    /// Actor without a GPU.
    pub fn mock() -> (a: BlasActor)
        ensures
            a.inner == BlasInner::Mock,
    {
        BlasActor { inner: BlasInner::Mock }
    }

    /// The message to panic with when the cuBLAS handle cannot be created.
    /// The supervisor restarts the context on it.
    pub fn handle_failure(text: &str) -> (msg: String)
        ensures
            msg@ == "ContextPoisoned: CudaBlas::new failed: "@ + text@,
    {
        join2("ContextPoisoned: CudaBlas::new failed: ", text)
    }

    /// Take one message.
    pub fn handle_msg(&self, msg: &BlasMsg, mem: &mut MemoryTable) -> (action: BlasAction)
        ensures
            handled(self.inner, *msg, old(mem)@, final(mem)@, action),
    {
        match self.inner {
            BlasInner::Mock => match msg {
                BlasMsg::Gemm(d) => BlasAction::DropOp { op_name: d.op_name() },
                BlasMsg::L1(d) => BlasAction::DropOp { op_name: d.op_name() },
                BlasMsg::L2(d) => BlasAction::DropOp { op_name: d.op_name() },
                BlasMsg::L3(d) => BlasAction::DropOp { op_name: d.op_name() },
                BlasMsg::GemmStridedBatched(d) => BlasAction::DropOp { op_name: d.op_name() },
                BlasMsg::Sgemm(_) => BlasAction::Reply(
                    GpuError::unrecoverable("Sgemm not supported in mock mode"),
                ),
            },
            BlasInner::Real { stream } => match msg {
                BlasMsg::Gemm(d) => to_action(d.dispatch(mem, stream)),
                BlasMsg::L1(d) => to_action(d.dispatch(mem, stream)),
                BlasMsg::L2(d) => to_action(d.dispatch(mem, stream)),
                BlasMsg::L3(d) => to_action(d.dispatch(mem, stream)),
                BlasMsg::GemmStridedBatched(d) => to_action(d.dispatch(mem, stream)),
                BlasMsg::Sgemm(req) => {
                    let typed = GemmRequest::<F32> {
                        a: req.a.same(),
                        b: req.b.same(),
                        c: req.c.same(),
                        m: req.m,
                        n: req.n,
                        k: req.k,
                        alpha: req.alpha,
                        beta: req.beta,
                        trans_a: CublasOperation::N,
                        trans_b: CublasOperation::N,
                        lda: req.m,
                        ldb: req.k,
                        ldc: req.m,
                        reply: req.reply,
                    };
                    to_action(typed.plan(mem, stream))
                },
            },
        }
    }
}

/// The single-precision product as the actor's own direct path plans it: the
/// same call as [`typed_sgemm`], with the refusal worded for the operation.
pub open spec fn sgemm_plan(req: SgemmRequest, m: MemoryView) -> Result<BlasCall, ErrorView> {
    match envelope::valid_3(req.a, req.b, req.c, m) {
        Err(e) => Err(e),
        Ok((a, b, c)) => if !req.c.is_sole_owner(m) {
            Err(
                ErrorView::Unrecoverable(
                    "SGEMM target buffer C has more than one live reference; caller must hold the unique GpuRef to write to it"@,
                ),
            )
        } else {
            typed_sgemm(req).spec_plan(m)
        },
    }
}

/// Validate a single-precision product and give its library call, on the
/// actor's direct path.
pub fn enqueue_sgemm(req: &SgemmRequest, mem: &mut MemoryTable, stream: u64) -> (r: Result<
    BlasCall,
    GpuError,
>)
    ensures
        error::outcome(r) == sgemm_plan(*req, old(mem)@),
        final(mem)@ == if r is Ok {
            old(mem)@.written(req.c.buffer, stream)
        } else {
            old(mem)@
        },
{
    let (a, b, c) = match access_all_3(&req.a, &req.b, &req.c, mem) {
        Ok(t) => t,
        Err(e) => {
            return Err(e);
        },
    };
    let config = GemmConfig {
        trans_a: CublasOperation::N,
        trans_b: CublasOperation::N,
        m: req.m,
        n: req.n,
        k: req.k,
        alpha: scalar(req.alpha),
        lda: req.m,
        ldb: req.k,
        beta: scalar(req.beta),
        ldc: req.m,
    };
    if !req.c.sole_owner(mem) {
        return Err(
            GpuError::unrecoverable(
                "SGEMM target buffer C has more than one live reference; caller must hold the unique GpuRef to write to it",
            ),
        );
    }
    req.c.record_write(mem, stream);
    Ok(
        BlasCall::Gemm {
            element: crate::dtype::Element::F32,
            config,
            a: a.ptr,
            b: b.ptr,
            c: c.ptr,
        },
    )
}

/// The error of a call that cuBLAS refused at the enqueue, where the call goes
/// through the safe interface.
pub fn enqueue_error(call: &BlasCall, text: &str) -> (e: GpuError)
    ensures
        e@ == (ErrorView::LibraryError { lib: LIB@, msg: enqueue_prefix(*call) + text@ }),
{
    let msg = match call {
        BlasCall::Gemm { .. } => join2("gemm enqueue: ", text),
        BlasCall::GemmStridedBatched { .. } => join2("gemm_strided_batched enqueue: ", text),
        BlasCall::Gemv { .. } => join2("gemv enqueue: ", text),
        _ => join2("", text),
    };
    GpuError::LibraryError { lib: LIB, msg }
}

/// What the text of an enqueue error starts with.
pub open spec fn enqueue_prefix(call: BlasCall) -> Seq<char> {
    match call {
        BlasCall::Gemm { .. } => "gemm enqueue: "@,
        BlasCall::GemmStridedBatched { .. } => "gemm_strided_batched enqueue: "@,
        BlasCall::Gemv { .. } => "gemv enqueue: "@,
        _ => ""@,
    }
}

/// The error of a single-precision product that cuBLAS refused at the enqueue
/// on the direct path.
pub fn sgemm_enqueue_error(text: &str) -> (e: GpuError)
    ensures
        e@ == (ErrorView::LibraryError { lib: LIB@, msg: "sgemm enqueue: "@ + text@ }),
{
    GpuError::LibraryError { lib: LIB, msg: join2("sgemm enqueue: ", text) }
}

/// A BLAS actor without a GPU never launches a call.
pub proof fn law_mock_never_launches(
    msg: BlasMsg,
    before: MemoryView,
    after: MemoryView,
    action: BlasAction,
)
    requires
        handled(BlasInner::Mock, msg, before, after, action),
    ensures
        !(action is Launch),
        after == before,
{
}

/// The older spelling of a single-precision product is planned like the typed
/// request it stands for, on the same three buffers.
pub proof fn law_sgemm_paths_agree(req: SgemmRequest, m: MemoryView)
    ensures
        sgemm_plan(req, m) is Ok <==> typed_sgemm(req).spec_plan(m) is Ok,
        sgemm_plan(req, m) is Ok ==> sgemm_plan(req, m) == typed_sgemm(req).spec_plan(m),
{
}

/// What the actor does for a message on a stream: the planned call is launched and
/// its targets are marked on that stream, or the refusal is the answer and the
/// memory stays as it was.
pub proof fn law_launches_the_planned_call(
    stream: u64,
    msg: BlasMsg,
    before: MemoryView,
    after: MemoryView,
    action: BlasAction,
)
    requires
        handled(BlasInner::Real { stream }, msg, before, after, action),
    ensures
        ({
            let plan = match msg {
                BlasMsg::Gemm(d) => d.dispatch_plan(before),
                BlasMsg::L1(d) => d.dispatch_plan(before),
                BlasMsg::L2(d) => d.dispatch_plan(before),
                BlasMsg::L3(d) => d.dispatch_plan(before),
                BlasMsg::GemmStridedBatched(d) => d.dispatch_plan(before),
                BlasMsg::Sgemm(req) => typed_sgemm(req).spec_plan(before),
            };
            let marked = match msg {
                BlasMsg::Gemm(d) => d.dispatch_written(before, stream),
                BlasMsg::L1(d) => d.dispatch_written(before, stream),
                BlasMsg::L2(d) => d.dispatch_written(before, stream),
                BlasMsg::L3(d) => d.dispatch_written(before, stream),
                BlasMsg::GemmStridedBatched(d) => d.dispatch_written(before, stream),
                BlasMsg::Sgemm(req) => before.written(req.c.buffer, stream),
            };
            match plan {
                Ok(call) => action == BlasAction::Launch(call) && after == marked,
                Err(e) => (action matches BlasAction::Reply(err) && err@ == e) && after == before,
            }
        }),
{
}

/// The older spelling of a product computes `alpha * A * B + beta * C` of dense
/// matrices: the call takes the request's matrices, shape and scalars, transposes
/// nothing, and has the number of rows of each matrix as its leading dimension.
pub proof fn law_sgemm_call(req: SgemmRequest, m: MemoryView)
    ensures
        sgemm_plan(req, m) is Ok <==> {
            &&& req.a.validity(m) is Ok
            &&& req.b.validity(m) is Ok
            &&& req.c.validity(m) is Ok
            &&& m.buffer(req.c.buffer).owners == 1
        },
        typed_sgemm(req).spec_plan(m) is Ok <==> sgemm_plan(req, m) is Ok,
        sgemm_plan(req, m) matches Ok(call) ==> {
            &&& typed_sgemm(req).spec_plan(m) == Ok::<BlasCall, ErrorView>(call)
            &&& call matches BlasCall::Gemm { element, config, a, b, c } && {
                &&& element == Element::F32
                &&& config.trans_a == CublasOperation::N
                &&& config.trans_b == CublasOperation::N
                &&& config.m == req.m
                &&& config.n == req.n
                &&& config.k == req.k
                &&& config.alpha.bits == req.alpha.spec_bits()
                &&& config.alpha.data_type == CudaDataType::R32F
                &&& config.beta.bits == req.beta.spec_bits()
                &&& config.beta.data_type == CudaDataType::R32F
                &&& config.lda == req.m
                &&& config.ldb == req.k
                &&& config.ldc == req.m
                &&& a == req.a.slice.ptr
                &&& b == req.b.slice.ptr
                &&& c == req.c.slice.ptr
            }
        },
        sgemm_plan(req, m) matches Err(e) ==> {
            &&& req.a.validity(m) matches Err(stale) ==> e == stale
            &&& req.a.validity(m) is Ok ==> (req.b.validity(m) matches Err(stale) ==> e == stale)
            &&& req.a.validity(m) is Ok && req.b.validity(m) is Ok ==> (req.c.validity(
                m,
            ) matches Err(stale) ==> e == stale)
            &&& req.a.validity(m) is Ok && req.b.validity(m) is Ok && req.c.validity(m) is Ok ==> e
                == ErrorView::Unrecoverable(
                "SGEMM target buffer C has more than one live reference; caller must hold the unique GpuRef to write to it"@,
            )
        },
{
}

/// Without a GPU a request is dropped under its own operation's name, and the older
/// spelling is refused.
pub proof fn law_mock_drops_by_name(
    msg: BlasMsg,
    before: MemoryView,
    after: MemoryView,
    action: BlasAction,
)
    requires
        handled(BlasInner::Mock, msg, before, after, action),
    ensures
        match msg {
            BlasMsg::Gemm(d) => action matches BlasAction::DropOp { op_name } && op_name@
                == d.spec_op_name(),
            BlasMsg::L1(d) => action matches BlasAction::DropOp { op_name } && op_name@
                == d.spec_op_name(),
            BlasMsg::L2(d) => action matches BlasAction::DropOp { op_name } && op_name@
                == d.spec_op_name(),
            BlasMsg::L3(d) => action matches BlasAction::DropOp { op_name } && op_name@
                == d.spec_op_name(),
            BlasMsg::GemmStridedBatched(d) => action matches BlasAction::DropOp { op_name }
                && op_name@ == d.spec_op_name(),
            BlasMsg::Sgemm(_) => action matches BlasAction::Reply(e) && e@
                == ErrorView::Unrecoverable("Sgemm not supported in mock mode"@),
        },
{
}

/// The text of an enqueue error starts with the call's name where the call goes
/// through the safe interface, and is the library's own otherwise.
pub proof fn law_enqueue_prefixes(call: BlasCall)
    ensures
        call is Gemm ==> enqueue_prefix(call) == "gemm enqueue: "@,
        call is GemmStridedBatched ==> enqueue_prefix(call) == "gemm_strided_batched enqueue: "@,
        call is Gemv ==> enqueue_prefix(call) == "gemv enqueue: "@,
        !(call is Gemm) && !(call is GemmStridedBatched) && !(call is Gemv) ==> enqueue_prefix(
            call,
        ).len() == 0,
{
    reveal_strlit("");
}

} // verus!
