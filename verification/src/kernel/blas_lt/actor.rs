//! Routing of the cuBLASLt actor.

use vstd::prelude::*;

use crate::dtype::{Element, F32};
use crate::error::{ErrorView, GpuError};
use crate::error;
use crate::gpu_ref::{GpuRef, MemoryTable, MemoryView};
use crate::kernel::blas_lt::epilogue::Activation;
use crate::kernel::blas_lt::heuristic::{
    HeuristicCacheRef, HeuristicEntry, KeyTuple, DEFAULT_HEURISTIC_CAPACITY, DEFAULT_TOP_K,
};
use crate::kernel::blas_lt::matmul;
use crate::kernel::blas_lt::matmul::{plan_product, AnyMatmul, LtCall, MatmulConfig};
use crate::kernel::blas_lt::workspace::{
    PoolView, WorkspacePool, DEFAULT_POOL_CAPACITY_PER_CLASS,
};
use crate::kernel::lru_model;
use crate::text::join2;

verus! {

/// Single-precision product of the older surface.
pub struct MatmulF32 {
    pub cfg: MatmulConfig,
    pub a: GpuRef<F32>,
    pub b: GpuRef<F32>,
    pub c: GpuRef<F32>,
    pub bias: Option<GpuRef<F32>>,
    pub activation: Option<Activation>,
    pub reply: u64,
}

impl MatmulF32 {
    /// The product to make, or why it is refused.
    pub open spec fn plan(self, m: MemoryView) -> Result<LtCall, ErrorView> {
        matmul::product_plan(
            Element::F32,
            self.cfg,
            self.a,
            self.b,
            self.c,
            self.bias,
            self.activation,
            m,
        )
    }

    /// Validate the request and give the product to make.
    pub fn enqueue(&self, mem: &mut MemoryTable, stream: u64) -> (r: Result<LtCall, GpuError>)
        ensures
            error::outcome(r) == self.plan(old(mem)@),
            final(mem)@ == if r is Ok {
                old(mem)@.written(self.c.buffer, stream)
            } else {
                old(mem)@
            },
    {
        plan_product(
            Element::F32,
            self.cfg,
            &self.a,
            &self.b,
            &self.c,
            &self.bias,
            self.activation,
            mem,
            stream,
        )
    }
}

/// Messages to the cuBLASLt actor.
pub enum BlasLtMsg {
    Matmul(AnyMatmul),
    MatmulF32(MatmulF32),
}

impl BlasLtMsg {
    /// Message of a typed product.
    pub fn matmul(req: AnyMatmul) -> (m: BlasLtMsg)
        ensures
            m == BlasLtMsg::Matmul(req),
    {
        BlasLtMsg::Matmul(req)
    }
}

/// What the runtime is to do for a message.
pub enum BlasLtAction {
    /// Make the product and answer with its outcome.
    Launch(LtCall),
    /// Answer with the error.
    Reply(GpuError),
    /// Drop the request without an answer.
    DropOp,
}

/// What an actor on a GPU works with.
pub struct BlasLtReal {
    pub stream: u64,
    pub workspace_pool: WorkspacePool,
    pub heuristic_cache: HeuristicCacheRef,
    pub sm_arch: u32,
}

/// How the actor runs: on a stream, or without a GPU.
pub enum BlasLtInner {
    Real(BlasLtReal),
    Mock,
}

/// The cuBLASLt actor.
pub struct BlasLtActor {
    pub inner: BlasLtInner,
}

/// Architecture number in the cache keys: ten times the major compute
/// capability, or zero where it is not known.
pub open spec fn arch_number(major: Option<i32>) -> u32 {
    match major {
        Some(m) => (m as u32 * 10) as u32,
        None => 0,
    }
}

/// The action is what the plan of a product calls for.
pub open spec fn action_of(plan: Result<LtCall, ErrorView>, action: BlasLtAction) -> bool {
    match plan {
        Ok(call) => action matches BlasLtAction::Launch(c) && c == call,
        Err(e) => action matches BlasLtAction::Reply(err) && err@ == e,
    }
}

fn to_action(r: Result<LtCall, GpuError>) -> (a: BlasLtAction)
    ensures
        action_of(error::outcome(r), a),
{
    match r {
        Ok(call) => BlasLtAction::Launch(call),
        Err(e) => BlasLtAction::Reply(e),
    }
}

impl BlasLtActor {
    /// The heuristic cache of an actor on a GPU is well-formed.
    pub open spec fn wf(&self) -> bool {
        match self.inner {
            BlasLtInner::Real(live) => live.heuristic_cache.wf(),
            BlasLtInner::Mock => true,
        }
    }

    /// Actor on a stream, with an empty pool and cache. `major` is the
    /// device's major compute capability, where the query for it succeeded.
    pub fn new(stream: u64, major: Option<i32>) -> (a: BlasLtActor)
        requires
            major matches Some(m) ==> 0 <= m && m * 10 <= u32::MAX,
        ensures
            a.wf(),
            a.inner matches BlasLtInner::Real(live) && {
                &&& live.stream == stream
                &&& live.sm_arch == arch_number(major)
                &&& live.heuristic_cache@ == Seq::<(KeyTuple, HeuristicEntry)>::empty()
                &&& live.heuristic_cache.capacity() == DEFAULT_HEURISTIC_CAPACITY
                &&& live.heuristic_cache.spec_top_k() == DEFAULT_TOP_K
                &&& live.workspace_pool@ == (PoolView {
                    free: seq![],
                    per_class_capacity: DEFAULT_POOL_CAPACITY_PER_CLASS,
                    bytes_pooled: 0,
                })
            },
    {
        let sm_arch: u32 = match major {
            Some(m) => m as u32 * 10,
            None => 0,
        };
        BlasLtActor {
            inner: BlasLtInner::Real(
                BlasLtReal {
                    stream,
                    workspace_pool: WorkspacePool::new(),
                    heuristic_cache: HeuristicCacheRef::default_size(),
                    sm_arch,
                },
            ),
        }
    }

    /// Actor without a GPU.
    pub fn mock() -> (a: BlasLtActor)
        ensures
            a.inner is Mock,
            a.wf(),
    {
        BlasLtActor { inner: BlasLtInner::Mock }
    }

    /// The message to panic with when the cuBLASLt handle cannot be created.
    pub fn handle_failure(text: &str) -> (msg: String)
        ensures
            msg@ == "ContextPoisoned: CudaBlasLT::new failed: "@ + text@,
    {
        join2("ContextPoisoned: CudaBlasLT::new failed: ", text)
    }

    /// Take one message.
    pub fn handle(&mut self, msg: &BlasLtMsg, mem: &mut MemoryTable) -> (action: BlasLtAction)
        requires
            old(self).wf(),
        ensures
            final(self).wf(),
            match old(self).inner {
                BlasLtInner::Mock => final(mem)@ == old(mem)@ && *final(self) == *old(self)
                    && match *msg {
                    BlasLtMsg::Matmul(_) => action is DropOp,
                    BlasLtMsg::MatmulF32(_) => action matches BlasLtAction::Reply(e) && e@
                        == ErrorView::Unrecoverable("BlasLtActor in mock mode"@),
                },
                BlasLtInner::Real(before) => final(self).inner matches BlasLtInner::Real(after) && {
                    &&& after.stream == before.stream
                    &&& after.sm_arch == before.sm_arch
                    &&& after.workspace_pool == before.workspace_pool
                    &&& after.heuristic_cache.capacity() == before.heuristic_cache.capacity()
                    &&& after.heuristic_cache.spec_top_k() == before.heuristic_cache.spec_top_k()
                    &&& match *msg {
                        BlasLtMsg::Matmul(req) => {
                            &&& action_of(req.plan(old(mem)@), action)
                            &&& final(mem)@ == (if req.plan(old(mem)@) is Ok {
                                req.written(old(mem)@, before.stream)
                            } else {
                                old(mem)@
                            })
                            &&& after.heuristic_cache@ == match req.looked_up(before.sm_arch) {
                                Some(key) => lru_model::touched(
                                    before.heuristic_cache@,
                                    key.tuple(),
                                ),
                                None => before.heuristic_cache@,
                            }
                        },
                        BlasLtMsg::MatmulF32(req) => {
                            &&& action_of(req.plan(old(mem)@), action)
                            &&& final(mem)@ == (if req.plan(old(mem)@) is Ok {
                                old(mem)@.written(req.c.buffer, before.stream)
                            } else {
                                old(mem)@
                            })
                            &&& after.heuristic_cache@ == before.heuristic_cache@
                        },
                    }
                },
            },
    {
        match &mut self.inner {
            BlasLtInner::Mock => match msg {
                BlasLtMsg::Matmul(_) => BlasLtAction::DropOp,
                BlasLtMsg::MatmulF32(_) => BlasLtAction::Reply(
                    GpuError::unrecoverable("BlasLtActor in mock mode"),
                ),
            },
            BlasLtInner::Real(live) => match msg {
                BlasLtMsg::Matmul(req) => to_action(
                    req.dispatch(mem, live.stream, &mut live.heuristic_cache, live.sm_arch),
                ),
                BlasLtMsg::MatmulF32(req) => to_action(req.enqueue(mem, live.stream)),
            },
        }
    }
}

/// The call of an accepted product of the older surface takes the caller's
/// configuration, matrices, bias and activation, each in its own place.
pub proof fn law_older_matmul_call(req: MatmulF32, m: MemoryView)
    ensures
        match req.plan(m) {
            Ok(call) => {
                &&& req.a.validity(m) is Ok && req.b.validity(m) is Ok && req.c.validity(m) is Ok
                &&& req.bias matches Some(g) ==> g.validity(m) is Ok
                &&& m.buffer(req.c.buffer).owners == 1
                &&& call.element == Element::F32
                &&& call.config == req.cfg
                &&& call.a == req.a.slice.ptr
                &&& call.b == req.b.slice.ptr
                &&& call.c == req.c.slice.ptr
                &&& match req.bias {
                    Some(g) => call.bias == Some(g.slice.ptr),
                    None => call.bias is None,
                }
                &&& call.activation == req.activation
            },
            Err(e) => {
                &&& req.a.validity(m) matches Err(stale) ==> e == stale
                &&& req.a.validity(m) is Ok && req.b.validity(m) is Ok && req.c.validity(m) is Ok
                    && (req.bias matches Some(g) ==> g.validity(m) is Ok) ==> m.buffer(
                    req.c.buffer,
                ).owners != 1 && e == ErrorView::Unrecoverable(
                    "BlasLt C has multiple live references"@,
                )
            },
        },
{
}

/// The architecture number is ten times the major compute capability.
pub proof fn law_arch_number(major: i32)
    requires
        0 <= major,
        major * 10 <= u32::MAX,
    ensures
        arch_number(Some(major)) == major * 10,
        arch_number(None) == 0,
{
}

/// The action for a plan is to launch exactly its product, or to answer with its
/// refusal.
pub proof fn law_launches_the_planned_product(
    plan: Result<LtCall, ErrorView>,
    action: BlasLtAction,
)
    requires
        action_of(plan, action),
    ensures
        match plan {
            Ok(call) => action == BlasLtAction::Launch(call),
            Err(e) => action matches BlasLtAction::Reply(err) && err@ == e,
        },
{
}

} // verus!
