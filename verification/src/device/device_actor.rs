//! `DeviceActor`: the outer tier of the two-tier supervision tree.
//!
//! The device has a stable address while its context comes and goes. Work
//! that arrives while the context is away is queued, up to a bound, and
//! handed on in arrival order once the context is back.
//!
//! The actor here is a transition system: [`DeviceActor::handle`] takes one
//! message, updates the state and returns the actions for the surrounding
//! runtime to perform, in order. Reply channels, buffers and actor addresses
//! are plain handles.

use std::collections::{HashMap, VecDeque};

use vstd::multiset::Multiset;
use vstd::prelude::*;

use crate::device::alloc_dispatch::{
    AllocOp, AllocReq, CopyFromHostOp, CopyFromHostReq, CopyToHostOp, CopyToHostReq, HostBuf,
};
use crate::device::config::DeviceConfig;
use crate::device::state::DeviceState;
use crate::dtype::{Bf16, CudaDtype, DTypeKind, F16, F32, F64};
use crate::error::{ErrorView, GpuError};
use crate::gpu_ref::GpuRef;

verus! {

/// Addresses of the kernel actors that a context spawns. Each optional one is
/// there when its library is enabled.
///
/// `extras` is the handle of the registry of the child actors that have no field
/// of their own here. Every copy of the children leads to the same registry.
#[derive(Debug, Clone, Copy, PartialEq, Eq, Structural)]
pub struct KernelChildren {
    pub blas: u64,
    pub cudnn: Option<u64>,
    pub fft: Option<u64>,
    pub rng: Option<u64>,
    pub solver: Option<u64>,
    pub nvrtc: Option<u64>,
    pub extras: u64,
}

/// The registries of extra child actors, by their handles. In a registry the
/// actors are keyed by the tag of their type. A handle under which nothing was
/// registered yet has an empty registry.
pub struct ExtrasTable {
    registries: HashMap<u64, HashMap<u64, u64>>,
}

/// The registry with this handle.
pub open spec fn registry(table: Map<u64, Map<u64, u64>>, extras: u64) -> Map<u64, u64> {
    if table.contains_key(extras) {
        table[extras]
    } else {
        Map::empty()
    }
}

/// The registries after `actor` was registered under `type_tag` in one of them.
pub open spec fn registered(
    table: Map<u64, Map<u64, u64>>,
    extras: u64,
    type_tag: u64,
    actor: u64,
) -> Map<u64, Map<u64, u64>> {
    table.insert(extras, registry(table, extras).insert(type_tag, actor))
}

impl View for ExtrasTable {
    type V = Map<u64, Map<u64, u64>>;

    closed spec fn view(&self) -> Map<u64, Map<u64, u64>> {
        self.registries@.map_values(|m: HashMap<u64, u64>| m@)
    }
}

impl ExtrasTable {
    /// Registries that are all empty.
    pub fn new() -> (t: ExtrasTable)
        ensures
            t@ == Map::<u64, Map<u64, u64>>::empty(),
    {
        let t = ExtrasTable { registries: HashMap::new() };
        assert(t@ =~= Map::<u64, Map<u64, u64>>::empty());
        t
    }
}

impl KernelChildren {
    /// Children with a BLAS actor, the registry with this handle, and nothing
    /// else.
    pub fn new(blas: u64, extras: u64) -> (c: KernelChildren)
        ensures
            c == (KernelChildren {
                blas,
                cudnn: None,
                fft: None,
                rng: None,
                solver: None,
                nvrtc: None,
                extras,
            }),
    {
        KernelChildren {
            blas,
            cudnn: None,
            fft: None,
            rng: None,
            solver: None,
            nvrtc: None,
            extras,
        }
    }

    /// Register an extra child actor under the tag of its type, in place of an
    /// earlier one.
    pub fn register_extra(&self, table: &mut ExtrasTable, type_tag: u64, actor: u64)
        ensures
            final(table)@ == registered(old(table)@, self.extras, type_tag, actor),
    {
        let mut entries = match table.registries.remove(&self.extras) {
            Some(entries) => entries,
            None => HashMap::new(),
        };
        entries.insert(type_tag, actor);
        table.registries.insert(self.extras, entries);
        assert(table@ =~= registered(old(table)@, self.extras, type_tag, actor));
    }

    /// The extra child actor registered under the tag, if any.
    pub fn extra(&self, table: &ExtrasTable, type_tag: u64) -> (actor: Option<u64>)
        ensures
            actor == registry(table@, self.extras).get(type_tag),
    {
        match table.registries.get(&self.extras) {
            Some(entries) => match entries.get(&type_tag) {
                Some(actor) => Some(*actor),
                None => None,
            },
            None => None,
        }
    }

    /// Number of extra child actors.
    pub fn extras_len(&self, table: &ExtrasTable) -> (n: usize)
        ensures
            n == registry(table@, self.extras).len(),
    {
        match table.registries.get(&self.extras) {
            Some(entries) => entries.len(),
            None => 0,
        }
    }
}

/// What is registered on some children is found through them and through every
/// copy of them, in place of what was registered under the same tag before.
/// Other tags, and the registries of other children, keep what they had.
pub proof fn law_extras_reach_every_copy(
    table: Map<u64, Map<u64, u64>>,
    c: KernelChildren,
    other: KernelChildren,
    type_tag: u64,
    actor: u64,
    tag: u64,
)
    ensures
        ({
            let after = registered(table, c.extras, type_tag, actor);
            if other.extras == c.extras {
                registry(after, other.extras).get(tag) == if tag == type_tag {
                    Some(actor)
                } else {
                    registry(table, other.extras).get(tag)
                }
            } else {
                registry(after, other.extras) == registry(table, other.extras)
            }
        }),
{
}

/// A single-precision matrix product for the context's BLAS actor.
pub struct SgemmRequest {
    pub a: GpuRef<F32>,
    pub b: GpuRef<F32>,
    pub c: GpuRef<F32>,
    pub m: i32,
    pub n: i32,
    pub k: i32,
    pub alpha: F32,
    pub beta: F32,
    pub reply: u64,
}

/// Work that only the context can do.
pub enum ContextOp {
    Alloc(AllocOp),
    CopyToHost(CopyToHostOp),
    CopyFromHost(CopyFromHostOp),
}

impl ContextOp {
    /// The reply channel that the operation owns.
    pub open spec fn reply(self) -> u64 {
        match self {
            ContextOp::Alloc(op) => op.reply,
            ContextOp::CopyToHost(op) => op.reply,
            ContextOp::CopyFromHost(op) => op.reply,
        }
    }
}

/// Work queued while the context is away.
pub enum WorkRequest {
    Boxed(ContextOp),
    Sgemm(SgemmRequest),
    SnapshotContext { reply: u64 },
}

/// Load snapshot for placement scheduling.
#[derive(Debug, Clone, Copy, PartialEq, Eq)]
pub struct DeviceLoad {
    pub free_bytes: u64,
    pub total_bytes: u64,
    pub active_streams: u32,
    pub queue_depth: u32,
    pub compute_cap: (u32, u32),
}

/// Messages to a device. The variants named after a dtype are older spellings
/// of `Alloc`, `CopyToHost` and `CopyFromHost` and do the same.
#[allow(inconsistent_fields)]
pub enum DeviceMsg {
    Alloc(AllocOp),
    CopyToHost(CopyToHostOp),
    CopyFromHost(CopyFromHostOp),
    Allocate { len: usize, reply: u64 },
    AllocateF32 { len: usize, reply: u64 },
    AllocateF64 { len: usize, reply: u64 },
    AllocateI8 { len: usize, reply: u64 },
    AllocateI32 { len: usize, reply: u64 },
    AllocateI64 { len: usize, reply: u64 },
    AllocateU8 { len: usize, reply: u64 },
    AllocateU32 { len: usize, reply: u64 },
    AllocateU64 { len: usize, reply: u64 },
    AllocateF16 { len: usize, reply: u64 },
    AllocateBf16 { len: usize, reply: u64 },
    CopyToHostF32 { src: GpuRef<F32>, dst: HostBuf, reply: u64 },
    CopyFromHostF32 { src: HostBuf, dst: GpuRef<F32>, reply: u64 },
    CopyToHostF64 { src: GpuRef<F64>, dst: HostBuf, reply: u64 },
    CopyFromHostF64 { src: HostBuf, dst: GpuRef<F64>, reply: u64 },
    CopyToHostI32 { src: GpuRef<i32>, dst: HostBuf, reply: u64 },
    CopyFromHostI32 { src: HostBuf, dst: GpuRef<i32>, reply: u64 },
    CopyToHostU32 { src: GpuRef<u32>, dst: HostBuf, reply: u64 },
    CopyFromHostU32 { src: HostBuf, dst: GpuRef<u32>, reply: u64 },
    CopyToHostU8 { src: GpuRef<u8>, dst: HostBuf, reply: u64 },
    CopyFromHostU8 { src: HostBuf, dst: GpuRef<u8>, reply: u64 },
    /// Matrix product through the context's BLAS actor.
    Sgemm(SgemmRequest),
    /// The current context handle, or none while there is no context.
    SnapshotContext { reply: u64 },
    /// The context's primary stream, or none while there is no context.
    SnapshotStream { reply: u64 },
    /// The kernel actors, or none until the context is ready.
    SnapshotChildren { reply: u64 },
    /// Subscribe to the context's generation.
    WatchGeneration { reply: u64 },
    /// Load snapshot.
    Stats { reply: u64 },
    /// The context is up and its kernel actors are live.
    ContextReady { children: KernelChildren },
    /// The context was torn down; work is queued again.
    ContextLost,
}

/// Why a matrix product was refused without reaching the context.
#[derive(Debug, Clone, Copy, PartialEq, Eq, Structural)]
pub enum SgemmRefusal {
    QueueFull,
    ShuttingDown,
}

impl SgemmRefusal {
    /// The error that the caller gets.
    pub open spec fn error(self) -> ErrorView {
        match self {
            SgemmRefusal::QueueFull => ErrorView::Unrecoverable("device pending queue full"@),
            SgemmRefusal::ShuttingDown => ErrorView::GpuRefStale("device shutting down"@),
        }
    }

    /// The error that the caller gets.
    pub fn into_error(self) -> (e: GpuError)
        ensures
            e@ == self.error(),
    {
        match self {
            SgemmRefusal::QueueFull => GpuError::unrecoverable("device pending queue full"),
            SgemmRefusal::ShuttingDown => GpuError::GpuRefStale("device shutting down"),
        }
    }
}

/// What the runtime is to do, in order.
pub enum DeviceAction {
    /// Hand the operation to the context actor.
    ToContext(ContextOp),
    /// Hand the product to the BLAS actor at this address.
    ToBlas { blas: u64, request: SgemmRequest },
    /// Answer a matrix product with the refusal's error.
    RefuseSgemm { reply: u64, refusal: SgemmRefusal },
    /// Close the reply channel without an answer.
    DropReply { reply: u64 },
    /// Answer with a context handle.
    ReplyContext { reply: u64, context: Option<u64> },
    /// Ask the context actor to answer with its stream.
    StreamViaContext { reply: u64 },
    /// Answer that there is no stream.
    ReplyNoStream { reply: u64 },
    /// Answer with the kernel actors.
    ReplyChildren { reply: u64, children: Option<KernelChildren> },
    /// Answer with a subscription to the generation.
    ReplyWatch { reply: u64 },
    /// Answer with the load.
    ReplyLoad { reply: u64, load: DeviceLoad },
}

impl DeviceMsg {
    /// Allocation of `len` elements of type `T`.
    pub fn alloc_typed<T: CudaDtype>(len: usize, reply: u64) -> (m: DeviceMsg)
        ensures
            m == DeviceMsg::Alloc(
                AllocOp { dtype: T::spec_element().spec_kind(), len, reply },
            ),
    {
        DeviceMsg::Alloc(AllocReq::<T>::new(len, reply).erase())
    }

    /// Device-to-host copy.
    pub fn copy_to_host<T: CudaDtype>(src: GpuRef<T>, dst: HostBuf, reply: u64) -> (m: DeviceMsg)
        ensures
            m == DeviceMsg::CopyToHost((CopyToHostReq::<T> { src, dst, reply }).spec_erase()),
    {
        let req = CopyToHostReq::<T> { src, dst, reply };
        DeviceMsg::CopyToHost(req.erase())
    }

    /// Host-to-device copy.
    pub fn copy_from_host<T: CudaDtype>(src: HostBuf, dst: GpuRef<T>, reply: u64) -> (m: DeviceMsg)
        ensures
            m == DeviceMsg::CopyFromHost((CopyFromHostReq::<T> { src, dst, reply }).spec_erase()),
    {
        let req = CopyFromHostReq::<T> { src, dst, reply };
        DeviceMsg::CopyFromHost(req.erase())
    }

    /// The message with an older spelling replaced by the general one.
    pub open spec fn spec_collapse(self) -> DeviceMsg {
        match self {
            DeviceMsg::Allocate { len, reply } => spec_alloc::<F32>(len, reply),
            DeviceMsg::AllocateF32 { len, reply } => spec_alloc::<F32>(len, reply),
            DeviceMsg::AllocateF64 { len, reply } => spec_alloc::<F64>(len, reply),
            DeviceMsg::AllocateI8 { len, reply } => spec_alloc::<i8>(len, reply),
            DeviceMsg::AllocateI32 { len, reply } => spec_alloc::<i32>(len, reply),
            DeviceMsg::AllocateI64 { len, reply } => spec_alloc::<i64>(len, reply),
            DeviceMsg::AllocateU8 { len, reply } => spec_alloc::<u8>(len, reply),
            DeviceMsg::AllocateU32 { len, reply } => spec_alloc::<u32>(len, reply),
            DeviceMsg::AllocateU64 { len, reply } => spec_alloc::<u64>(len, reply),
            DeviceMsg::AllocateF16 { len, reply } => spec_alloc::<F16>(len, reply),
            DeviceMsg::AllocateBf16 { len, reply } => spec_alloc::<Bf16>(len, reply),
            DeviceMsg::CopyToHostF32 { src, dst, reply } => spec_to_host(src, dst, reply),
            DeviceMsg::CopyToHostF64 { src, dst, reply } => spec_to_host(src, dst, reply),
            DeviceMsg::CopyToHostI32 { src, dst, reply } => spec_to_host(src, dst, reply),
            DeviceMsg::CopyToHostU32 { src, dst, reply } => spec_to_host(src, dst, reply),
            DeviceMsg::CopyToHostU8 { src, dst, reply } => spec_to_host(src, dst, reply),
            DeviceMsg::CopyFromHostF32 { src, dst, reply } => spec_from_host(src, dst, reply),
            DeviceMsg::CopyFromHostF64 { src, dst, reply } => spec_from_host(src, dst, reply),
            DeviceMsg::CopyFromHostI32 { src, dst, reply } => spec_from_host(src, dst, reply),
            DeviceMsg::CopyFromHostU32 { src, dst, reply } => spec_from_host(src, dst, reply),
            DeviceMsg::CopyFromHostU8 { src, dst, reply } => spec_from_host(src, dst, reply),
            other => other,
        }
    }

    /// Replace an older spelling by the general one.
    pub fn collapse(self) -> (m: DeviceMsg)
        ensures
            m == self.spec_collapse(),
    {
        match self {
            DeviceMsg::Allocate { len, reply } => DeviceMsg::alloc_typed::<F32>(len, reply),
            DeviceMsg::AllocateF32 { len, reply } => DeviceMsg::alloc_typed::<F32>(len, reply),
            DeviceMsg::AllocateF64 { len, reply } => DeviceMsg::alloc_typed::<F64>(len, reply),
            DeviceMsg::AllocateI8 { len, reply } => DeviceMsg::alloc_typed::<i8>(len, reply),
            DeviceMsg::AllocateI32 { len, reply } => DeviceMsg::alloc_typed::<i32>(len, reply),
            DeviceMsg::AllocateI64 { len, reply } => DeviceMsg::alloc_typed::<i64>(len, reply),
            DeviceMsg::AllocateU8 { len, reply } => DeviceMsg::alloc_typed::<u8>(len, reply),
            DeviceMsg::AllocateU32 { len, reply } => DeviceMsg::alloc_typed::<u32>(len, reply),
            DeviceMsg::AllocateU64 { len, reply } => DeviceMsg::alloc_typed::<u64>(len, reply),
            DeviceMsg::AllocateF16 { len, reply } => DeviceMsg::alloc_typed::<F16>(len, reply),
            DeviceMsg::AllocateBf16 { len, reply } => DeviceMsg::alloc_typed::<Bf16>(len, reply),
            DeviceMsg::CopyToHostF32 { src, dst, reply } => {
                DeviceMsg::copy_to_host::<F32>(src, dst, reply)
            },
            DeviceMsg::CopyToHostF64 { src, dst, reply } => {
                DeviceMsg::copy_to_host::<F64>(src, dst, reply)
            },
            DeviceMsg::CopyToHostI32 { src, dst, reply } => {
                DeviceMsg::copy_to_host::<i32>(src, dst, reply)
            },
            DeviceMsg::CopyToHostU32 { src, dst, reply } => {
                DeviceMsg::copy_to_host::<u32>(src, dst, reply)
            },
            DeviceMsg::CopyToHostU8 { src, dst, reply } => {
                DeviceMsg::copy_to_host::<u8>(src, dst, reply)
            },
            DeviceMsg::CopyFromHostF32 { src, dst, reply } => {
                DeviceMsg::copy_from_host::<F32>(src, dst, reply)
            },
            DeviceMsg::CopyFromHostF64 { src, dst, reply } => {
                DeviceMsg::copy_from_host::<F64>(src, dst, reply)
            },
            DeviceMsg::CopyFromHostI32 { src, dst, reply } => {
                DeviceMsg::copy_from_host::<i32>(src, dst, reply)
            },
            DeviceMsg::CopyFromHostU32 { src, dst, reply } => {
                DeviceMsg::copy_from_host::<u32>(src, dst, reply)
            },
            DeviceMsg::CopyFromHostU8 { src, dst, reply } => {
                DeviceMsg::copy_from_host::<u8>(src, dst, reply)
            },
            other => other,
        }
    }
}

/// The general spelling of an allocation.
pub open spec fn spec_alloc<T: CudaDtype>(len: usize, reply: u64) -> DeviceMsg {
    DeviceMsg::Alloc(AllocOp { dtype: T::spec_element().spec_kind(), len, reply })
}

/// The general spelling of a device-to-host copy.
pub open spec fn spec_to_host<T: CudaDtype>(src: GpuRef<T>, dst: HostBuf, reply: u64) -> DeviceMsg {
    DeviceMsg::CopyToHost((CopyToHostReq::<T> { src, dst, reply }).spec_erase())
}

/// The general spelling of a host-to-device copy.
pub open spec fn spec_from_host<T: CudaDtype>(
    src: HostBuf,
    dst: GpuRef<T>,
    reply: u64,
) -> DeviceMsg {
    DeviceMsg::CopyFromHost((CopyFromHostReq::<T> { src, dst, reply }).spec_erase())
}

/// The actor's state: configuration, device state, whether its context actor
/// runs, the kernel actors, and the queue of work, oldest first.
#[verifier::ext_equal]
pub struct DeviceView {
    pub config: DeviceConfig,
    pub state: DeviceState,
    pub has_context: bool,
    pub children: Option<KernelChildren>,
    pub pending: Seq<WorkRequest>,
}

impl DeviceView {
    /// The queue keeps to its bound.
    pub open spec fn bounded(self) -> bool {
        self.pending.len() <= self.config.pending_queue_capacity
    }

    /// Both the context actor and its kernel actors are there.
    pub open spec fn ready(self) -> bool {
        self.has_context && self.children is Some
    }

    /// Queue a work item, or turn it away where the queue is full.
    pub open spec fn enqueued(self, work: WorkRequest) -> (DeviceView, Seq<DeviceAction>) {
        if self.pending.len() >= self.config.pending_queue_capacity {
            (
                self,
                seq![
                    match work {
                        WorkRequest::Sgemm(req) => DeviceAction::RefuseSgemm {
                            reply: req.reply,
                            refusal: SgemmRefusal::QueueFull,
                        },
                        WorkRequest::SnapshotContext { reply } => DeviceAction::ReplyContext {
                            reply,
                            context: None,
                        },
                        WorkRequest::Boxed(op) => DeviceAction::DropReply { reply: op.reply() },
                    },
                ],
            )
        } else {
            (DeviceView { pending: self.pending.push(work), ..self }, seq![])
        }
    }

    /// What becomes of a queued item once the context is ready.
    pub open spec fn released(self, work: WorkRequest, children: KernelChildren) -> DeviceAction {
        match work {
            WorkRequest::Boxed(op) => DeviceAction::ToContext(op),
            WorkRequest::Sgemm(request) => DeviceAction::ToBlas { blas: children.blas, request },
            WorkRequest::SnapshotContext { reply } => DeviceAction::ReplyContext {
                reply,
                context: self.state.context,
            },
        }
    }

    /// Release the whole queue, oldest first, once the device is ready.
    pub open spec fn drained(self) -> (DeviceView, Seq<DeviceAction>) {
        if self.ready() {
            (
                DeviceView { pending: seq![], ..self },
                self.pending.map_values(|w: WorkRequest| self.released(w, self.children->0)),
            )
        } else {
            (self, seq![])
        }
    }

    /// What becomes of a queued item when the device stops.
    pub open spec fn cancelled(work: WorkRequest) -> DeviceAction {
        match work {
            WorkRequest::Boxed(op) => DeviceAction::DropReply { reply: op.reply() },
            WorkRequest::Sgemm(req) => DeviceAction::RefuseSgemm {
                reply: req.reply,
                refusal: SgemmRefusal::ShuttingDown,
            },
            WorkRequest::SnapshotContext { reply } => DeviceAction::ReplyContext {
                reply,
                context: None,
            },
        }
    }

    /// Hand an operation to the context, or queue it while there is none.
    pub open spec fn context_work(self, op: ContextOp) -> (DeviceView, Seq<DeviceAction>) {
        if self.ready() {
            (self, seq![DeviceAction::ToContext(op)])
        } else {
            self.enqueued(WorkRequest::Boxed(op))
        }
    }

    /// The load that the device reports.
    pub open spec fn load(self) -> DeviceLoad {
        DeviceLoad {
            free_bytes: 0,
            total_bytes: 0,
            active_streams: 0,
            queue_depth: self.pending.len() as u32,
            compute_cap: (0, 0),
        }
    }

    /// One message: the state after it and the actions it calls for.
    pub open spec fn step(self, msg: DeviceMsg) -> (DeviceView, Seq<DeviceAction>) {
        match msg.spec_collapse() {
            DeviceMsg::Alloc(op) => self.context_work(ContextOp::Alloc(op)),
            DeviceMsg::CopyToHost(op) => self.context_work(ContextOp::CopyToHost(op)),
            DeviceMsg::CopyFromHost(op) => self.context_work(ContextOp::CopyFromHost(op)),
            DeviceMsg::Sgemm(request) => match self.children {
                Some(c) => (self, seq![DeviceAction::ToBlas { blas: c.blas, request }]),
                None => self.enqueued(WorkRequest::Sgemm(request)),
            },
            DeviceMsg::SnapshotContext { reply } => (
                self,
                seq![DeviceAction::ReplyContext { reply, context: self.state.context }],
            ),
            DeviceMsg::SnapshotStream { reply } => (
                self,
                seq![
                    if self.has_context {
                        DeviceAction::StreamViaContext { reply }
                    } else {
                        DeviceAction::ReplyNoStream { reply }
                    },
                ],
            ),
            DeviceMsg::SnapshotChildren { reply } => (
                self,
                seq![DeviceAction::ReplyChildren { reply, children: self.children }],
            ),
            DeviceMsg::WatchGeneration { reply } => (self, seq![DeviceAction::ReplyWatch { reply }]),
            DeviceMsg::Stats { reply } => (
                self,
                seq![DeviceAction::ReplyLoad { reply, load: self.load() }],
            ),
            DeviceMsg::ContextReady { children } => (DeviceView {
                children: Some(children),
                ..self
            }).drained(),
            DeviceMsg::ContextLost => (DeviceView { children: None, ..self }, seq![]),
            _ => (self, seq![]),
        }
    }

    /// The device stops: no more work is taken and the queue is cancelled,
    /// oldest first.
    pub open spec fn stopped(self) -> (DeviceView, Seq<DeviceAction>) {
        (
            DeviceView { state: self.state.shut(), pending: seq![], ..self },
            self.pending.map_values(|w: WorkRequest| DeviceView::cancelled(w)),
        )
    }

    /// A run of messages: the state after them and all their actions.
    pub open spec fn run(self, msgs: Seq<DeviceMsg>) -> (DeviceView, Seq<DeviceAction>)
        decreases msgs.len(),
    {
        if msgs.len() == 0 {
            (self, seq![])
        } else {
            let (mid, before) = self.run(msgs.drop_last());
            let (end, last) = mid.step(msgs.last());
            (end, before + last)
        }
    }
}

/// The device actor.
pub struct DeviceActor {
    config: DeviceConfig,
    state: DeviceState,
    has_context: bool,
    children: Option<KernelChildren>,
    pending: VecDeque<WorkRequest>,
}

impl DeviceActor {
    /// The actor's state.
    pub closed spec fn view(&self) -> DeviceView {
        DeviceView {
            config: self.config,
            state: self.state,
            has_context: self.has_context,
            children: self.children,
            pending: self.pending@,
        }
    }

    /// A device that has not started its context yet.
    pub fn new(config: DeviceConfig) -> (a: DeviceActor)
        ensures
            a@ == (DeviceView {
                config,
                state: DeviceState {
                    device_id: config.device_id,
                    generation: 0,
                    accepting: true,
                    context: None,
                },
                has_context: false,
                children: None,
                pending: seq![],
            }),
            a@.bounded(),
    {
        DeviceActor {
            config,
            state: DeviceState::new(config.device_id),
            has_context: false,
            children: None,
            pending: VecDeque::new(),
        }
    }

    /// The device's shared state.
    pub fn state(&self) -> (s: &DeviceState)
        ensures
            *s == self@.state,
    {
        &self.state
    }

    /// Note a new shared state: a context that came or went, a generation
    /// that moved on.
    pub fn set_state(&mut self, state: DeviceState)
        ensures
            final(self)@ == (DeviceView { state, ..old(self)@ }),
    {
        self.state = state;
    }

    /// The context actor was spawned.
    pub fn context_spawned(&mut self)
        ensures
            final(self)@ == (DeviceView { has_context: true, ..old(self)@ }),
    {
        self.has_context = true;
    }

    /// The message to panic with when the context actor cannot be spawned:
    /// the failure is structural, and the root supervisor has to see it.
    pub fn spawn_failure(error: &str) -> (msg: String)
        ensures
            msg@ == "Unrecoverable: failed to spawn ContextActor: "@ + error@,
    {
        crate::text::join2("Unrecoverable: failed to spawn ContextActor: ", error)
    }

    fn enqueue_pending(&mut self, work: WorkRequest) -> (actions: Vec<DeviceAction>)
        ensures
            (final(self)@, actions@) == old(self)@.enqueued(work),
            old(self)@.bounded() ==> final(self)@.bounded(),
    {
        let mut actions: Vec<DeviceAction> = Vec::new();
        if self.pending.len() >= self.config.pending_queue_capacity {
            match work {
                WorkRequest::Sgemm(req) => {
                    actions.push(
                        DeviceAction::RefuseSgemm {
                            reply: req.reply,
                            refusal: SgemmRefusal::QueueFull,
                        },
                    );
                },
                WorkRequest::SnapshotContext { reply } => {
                    actions.push(DeviceAction::ReplyContext { reply, context: None });
                },
                WorkRequest::Boxed(op) => {
                    let reply: u64 = reply_of(&op);
                    actions.push(DeviceAction::DropReply { reply });
                },
            }
            assert(actions@ =~= old(self)@.enqueued(work).1);
            return actions;
        }
        self.pending.push_back(work);
        assert(self@.pending =~= old(self)@.pending.push(work));
        assert(actions@ =~= seq![]);
        actions
    }

    fn drain_pending(&mut self) -> (actions: Vec<DeviceAction>)
        ensures
            (final(self)@, actions@) == old(self)@.drained(),
    {
        let mut actions: Vec<DeviceAction> = Vec::new();
        let children = match self.children {
            Some(c) => c,
            None => {
                assert(actions@ =~= seq![]);
                return actions;
            },
        };
        if !self.has_context {
            assert(actions@ =~= seq![]);
            return actions;
        }
        let ghost start = self@;
        let ghost goal = start.drained().1;
        while self.pending.len() > 0
            invariant
                start == old(self)@,
                start.ready(),
                start.children == Some(children),
                goal == start.drained().1,
                self@ == (DeviceView { pending: self.pending@, ..start }),
                actions@.len() + self.pending@.len() == start.pending.len(),
                self.pending@ == start.pending.skip(actions@.len() as int),
                actions@ == goal.take(actions@.len() as int),
            decreases self.pending@.len(),
        {
            let ghost k = actions@.len() as int;
            let ghost queue = self.pending@;
            assert(queue[0] == start.pending[k]);
            if let Some(work) = self.pending.pop_front() {
                assert(goal[k] == start.released(work, children));
                match work {
                    WorkRequest::Boxed(op) => actions.push(DeviceAction::ToContext(op)),
                    WorkRequest::Sgemm(request) => {
                        actions.push(DeviceAction::ToBlas { blas: children.blas, request })
                    },
                    WorkRequest::SnapshotContext { reply } => {
                        actions.push(
                            DeviceAction::ReplyContext {
                                reply,
                                context: self.state.current_context(),
                            },
                        )
                    },
                }
                assert(self.pending@ =~= start.pending.skip(k + 1));
                assert(actions@ =~= goal.take(k + 1));
            }
        }
        assert(actions@ =~= goal);
        assert(self@ =~= start.drained().0);
        actions
    }

    fn snapshot_load(&self) -> (load: DeviceLoad)
        ensures
            load == self@.load(),
    {
        DeviceLoad {
            free_bytes: 0,
            total_bytes: 0,
            active_streams: 0,
            queue_depth: self.pending.len() as u32,
            compute_cap: (0, 0),
        }
    }

    fn forward(&mut self, op: ContextOp) -> (actions: Vec<DeviceAction>)
        ensures
            (final(self)@, actions@) == old(self)@.context_work(op),
            old(self)@.bounded() ==> final(self)@.bounded(),
    {
        if self.has_context && self.children.is_some() {
            let mut actions: Vec<DeviceAction> = Vec::new();
            actions.push(DeviceAction::ToContext(op));
            assert(actions@ =~= old(self)@.context_work(op).1);
            actions
        } else {
            self.enqueue_pending(WorkRequest::Boxed(op))
        }
    }

    /// Take one message.
    pub fn handle(&mut self, msg: DeviceMsg) -> (actions: Vec<DeviceAction>)
        ensures
            (final(self)@, actions@) == old(self)@.step(msg),
            old(self)@.bounded() ==> final(self)@.bounded(),
    {
        let ghost want = old(self)@.step(msg).1;
        let msg = msg.collapse();
        let mut actions: Vec<DeviceAction> = Vec::new();
        match msg {
            DeviceMsg::Alloc(op) => {
                return self.forward(ContextOp::Alloc(op));
            },
            DeviceMsg::CopyToHost(op) => {
                return self.forward(ContextOp::CopyToHost(op));
            },
            DeviceMsg::CopyFromHost(op) => {
                return self.forward(ContextOp::CopyFromHost(op));
            },
            DeviceMsg::Sgemm(request) => match self.children {
                Some(c) => {
                    actions.push(DeviceAction::ToBlas { blas: c.blas, request });
                },
                None => {
                    return self.enqueue_pending(WorkRequest::Sgemm(request));
                },
            },
            DeviceMsg::SnapshotContext { reply } => {
                let context = self.state.current_context();
                actions.push(DeviceAction::ReplyContext { reply, context });
            },
            DeviceMsg::SnapshotStream { reply } => {
                if self.has_context {
                    actions.push(DeviceAction::StreamViaContext { reply });
                } else {
                    actions.push(DeviceAction::ReplyNoStream { reply });
                }
            },
            DeviceMsg::SnapshotChildren { reply } => {
                let children = self.children;
                actions.push(DeviceAction::ReplyChildren { reply, children });
            },
            DeviceMsg::WatchGeneration { reply } => {
                actions.push(DeviceAction::ReplyWatch { reply });
            },
            DeviceMsg::Stats { reply } => {
                let load = self.snapshot_load();
                actions.push(DeviceAction::ReplyLoad { reply, load });
            },
            DeviceMsg::ContextReady { children } => {
                self.children = Some(children);
                return self.drain_pending();
            },
            DeviceMsg::ContextLost => {
                self.children = None;
            },
            _ => {},
        }
        assert(actions@ =~= want);
        actions
    }

    /// Stop: take no more work and cancel what is queued, so that no caller
    /// is left waiting.
    pub fn post_stop(&mut self) -> (actions: Vec<DeviceAction>)
        ensures
            (final(self)@, actions@) == old(self)@.stopped(),
            final(self)@.bounded(),
    {
        self.state.begin_shutdown();
        let mut actions: Vec<DeviceAction> = Vec::new();
        let ghost start = self@;
        let ghost goal = old(self)@.stopped().1;
        while self.pending.len() > 0
            invariant
                start == (DeviceView { state: old(self)@.state.shut(), ..old(self)@ }),
                goal == old(self)@.stopped().1,
                self@ == (DeviceView { pending: self.pending@, ..start }),
                actions@.len() + self.pending@.len() == start.pending.len(),
                self.pending@ == start.pending.skip(actions@.len() as int),
                actions@ == goal.take(actions@.len() as int),
            decreases self.pending@.len(),
        {
            let ghost k = actions@.len() as int;
            let ghost queue = self.pending@;
            assert(queue[0] == start.pending[k]);
            if let Some(work) = self.pending.pop_front() {
                assert(goal[k] == DeviceView::cancelled(work));
                match work {
                    WorkRequest::Boxed(op) => {
                        let reply: u64 = reply_of(&op);
                        actions.push(DeviceAction::DropReply { reply });
                    },
                    WorkRequest::Sgemm(req) => {
                        actions.push(
                            DeviceAction::RefuseSgemm {
                                reply: req.reply,
                                refusal: SgemmRefusal::ShuttingDown,
                            },
                        );
                    },
                    WorkRequest::SnapshotContext { reply } => {
                        actions.push(DeviceAction::ReplyContext { reply, context: None });
                    },
                }
                assert(self.pending@ =~= start.pending.skip(k + 1));
                assert(actions@ =~= goal.take(k + 1));
            }
        }
        assert(actions@ =~= goal);
        assert(self@ =~= old(self)@.stopped().0);
        actions
    }
}

fn reply_of(op: &ContextOp) -> (reply: u64)
    ensures
        reply == op.reply(),
{
    match op {
        ContextOp::Alloc(op) => op.reply,
        ContextOp::CopyToHost(op) => op.reply,
        ContextOp::CopyFromHost(op) => op.reply,
    }
}

/// The work item that a message queues while the context is away, if it is
/// work at all.
pub open spec fn work_of(msg: DeviceMsg) -> Option<WorkRequest> {
    match msg.spec_collapse() {
        DeviceMsg::Alloc(op) => Some(WorkRequest::Boxed(ContextOp::Alloc(op))),
        DeviceMsg::CopyToHost(op) => Some(WorkRequest::Boxed(ContextOp::CopyToHost(op))),
        DeviceMsg::CopyFromHost(op) => Some(WorkRequest::Boxed(ContextOp::CopyFromHost(op))),
        DeviceMsg::Sgemm(request) => Some(WorkRequest::Sgemm(request)),
        _ => None,
    }
}

impl WorkRequest {
    /// The reply channel that the work item owns.
    pub open spec fn reply(self) -> u64 {
        match self {
            WorkRequest::Boxed(op) => op.reply(),
            WorkRequest::Sgemm(req) => req.reply,
            WorkRequest::SnapshotContext { reply } => reply,
        }
    }
}

impl DeviceAction {
    /// The reply channel that the action answers, closes or hands on.
    pub open spec fn reply(self) -> u64 {
        match self {
            DeviceAction::ToContext(op) => op.reply(),
            DeviceAction::ToBlas { request, .. } => request.reply,
            DeviceAction::RefuseSgemm { reply, .. } => reply,
            DeviceAction::DropReply { reply } => reply,
            DeviceAction::ReplyContext { reply, .. } => reply,
            DeviceAction::StreamViaContext { reply } => reply,
            DeviceAction::ReplyNoStream { reply } => reply,
            DeviceAction::ReplyChildren { reply, .. } => reply,
            DeviceAction::ReplyWatch { reply } => reply,
            DeviceAction::ReplyLoad { reply, .. } => reply,
        }
    }
}

impl DeviceMsg {
    /// The reply channel of the caller that waits, if the message has one.
    pub open spec fn caller(self) -> Option<u64> {
        match self.spec_collapse() {
            DeviceMsg::Alloc(op) => Some(op.reply),
            DeviceMsg::CopyToHost(op) => Some(op.reply),
            DeviceMsg::CopyFromHost(op) => Some(op.reply),
            DeviceMsg::Sgemm(req) => Some(req.reply),
            DeviceMsg::SnapshotContext { reply } => Some(reply),
            DeviceMsg::SnapshotStream { reply } => Some(reply),
            DeviceMsg::SnapshotChildren { reply } => Some(reply),
            DeviceMsg::WatchGeneration { reply } => Some(reply),
            DeviceMsg::Stats { reply } => Some(reply),
            _ => None,
        }
    }
}

/// The reply channels of queued work.
pub open spec fn waiting(works: Seq<WorkRequest>) -> Multiset<u64> {
    works.map_values(|w: WorkRequest| w.reply()).to_multiset()
}

/// The reply channels that actions see to.
pub open spec fn served(actions: Seq<DeviceAction>) -> Multiset<u64> {
    actions.map_values(|a: DeviceAction| a.reply()).to_multiset()
}

/// The reply channels of all callers of the messages.
pub open spec fn callers(msgs: Seq<DeviceMsg>) -> Multiset<u64>
    decreases msgs.len(),
{
    if msgs.len() == 0 {
        Multiset::empty()
    } else {
        match msgs.last().caller() {
            Some(reply) => callers(msgs.drop_last()).insert(reply),
            None => callers(msgs.drop_last()),
        }
    }
}

proof fn lemma_collapse_kind(msg: DeviceMsg)
    ensures
        msg.spec_collapse() is ContextReady <==> msg is ContextReady,
        msg.spec_collapse() is ContextLost <==> msg is ContextLost,
        msg is ContextReady ==> msg.spec_collapse() == msg,
        match msg.spec_collapse() {
            DeviceMsg::Alloc(_) => true,
            DeviceMsg::CopyToHost(_) => true,
            DeviceMsg::CopyFromHost(_) => true,
            DeviceMsg::Sgemm(_) => true,
            DeviceMsg::SnapshotContext { .. } => true,
            DeviceMsg::SnapshotStream { .. } => true,
            DeviceMsg::SnapshotChildren { .. } => true,
            DeviceMsg::WatchGeneration { .. } => true,
            DeviceMsg::Stats { .. } => true,
            DeviceMsg::ContextReady { .. } => true,
            DeviceMsg::ContextLost => true,
            _ => false,
        },
{
}

/// Whatever messages arrive, the queue never grows past its bound.
pub proof fn law_queue_bounded(start: DeviceView, msgs: Seq<DeviceMsg>)
    requires
        start.bounded(),
    ensures
        start.run(msgs).0.bounded(),
        start.run(msgs).0.config == start.config,
    decreases msgs.len(),
{
    if msgs.len() > 0 {
        law_queue_bounded(start, msgs.drop_last());
        lemma_collapse_kind(msgs.last());
    }
}

proof fn lemma_served_one(action: DeviceAction)
    ensures
        served(seq![action]) == Multiset::<u64>::empty().insert(action.reply()),
{
    let none = Seq::<u64>::empty();
    vstd::seq_lib::to_multiset_build(none, action.reply());
    assert(seq![action].map_values(|a: DeviceAction| a.reply()) =~= none.push(action.reply()));
    none.to_multiset_ensures();
    assert(none.to_multiset() =~= Multiset::<u64>::empty());
}

proof fn lemma_none_served()
    ensures
        served(Seq::<DeviceAction>::empty()) == Multiset::<u64>::empty(),
        waiting(Seq::<WorkRequest>::empty()) == Multiset::<u64>::empty(),
{
    let none = Seq::<u64>::empty();
    none.to_multiset_ensures();
    assert(Seq::<DeviceAction>::empty().map_values(|a: DeviceAction| a.reply()) =~= none);
    assert(Seq::<WorkRequest>::empty().map_values(|w: WorkRequest| w.reply()) =~= none);
    assert(none.to_multiset() =~= Multiset::<u64>::empty());
}

proof fn lemma_served_both(a: Seq<DeviceAction>, b: Seq<DeviceAction>)
    ensures
        served(a + b) == served(a).add(served(b)),
{
    let f = |x: DeviceAction| x.reply();
    vstd::seq_lib::lemma_multiset_commutative(a.map_values(f), b.map_values(f));
    assert((a + b).map_values(f) =~= a.map_values(f) + b.map_values(f));
}

proof fn lemma_enqueued_accounts(v: DeviceView, work: WorkRequest)
    ensures
        served(v.enqueued(work).1).add(waiting(v.enqueued(work).0.pending)) == waiting(
            v.pending,
        ).insert(work.reply()),
{
    if v.pending.len() >= v.config.pending_queue_capacity {
        lemma_served_one(v.enqueued(work).1[0]);
        assert(v.enqueued(work).1 =~= seq![v.enqueued(work).1[0]]);
        assert(served(v.enqueued(work).1).add(waiting(v.pending)) =~= waiting(v.pending).insert(
            work.reply(),
        ));
    } else {
        let f = |w: WorkRequest| w.reply();
        lemma_none_served();
        vstd::seq_lib::to_multiset_build(v.pending.map_values(f), work.reply());
        assert(v.pending.push(work).map_values(f) =~= v.pending.map_values(f).push(work.reply()));
        assert(served(v.enqueued(work).1).add(waiting(v.enqueued(work).0.pending)) =~= waiting(
            v.pending,
        ).insert(work.reply()));
    }
}

proof fn lemma_step_accounts(v: DeviceView, msg: DeviceMsg)
    ensures
        served(v.step(msg).1).add(waiting(v.step(msg).0.pending)) == match msg.caller() {
            Some(reply) => waiting(v.pending).insert(reply),
            None => waiting(v.pending),
        },
{
    lemma_collapse_kind(msg);
    lemma_none_served();
    match msg.spec_collapse() {
        DeviceMsg::Alloc(op) => lemma_context_work_accounts(v, ContextOp::Alloc(op)),
        DeviceMsg::CopyToHost(op) => lemma_context_work_accounts(v, ContextOp::CopyToHost(op)),
        DeviceMsg::CopyFromHost(op) => lemma_context_work_accounts(v, ContextOp::CopyFromHost(op)),
        DeviceMsg::Sgemm(request) => if v.children is Some {
            lemma_served_one(DeviceAction::ToBlas { blas: v.children->0.blas, request });
            assert(served(v.step(msg).1).add(waiting(v.pending)) =~= waiting(v.pending).insert(
                request.reply,
            ));
        } else {
            lemma_enqueued_accounts(v, WorkRequest::Sgemm(request));
        },
        DeviceMsg::ContextReady { children } => {
            let open = DeviceView { children: Some(children), ..v };
            if open.ready() {
                assert(v.step(msg).1.map_values(|a: DeviceAction| a.reply())
                    =~= v.pending.map_values(|w: WorkRequest| w.reply()));
            }
            assert(served(v.step(msg).1).add(waiting(v.step(msg).0.pending)) =~= waiting(
                v.pending,
            ));
        },
        DeviceMsg::ContextLost => {
            assert(served(v.step(msg).1).add(waiting(v.pending)) =~= waiting(v.pending));
        },
        _ => {
            lemma_served_one(v.step(msg).1[0]);
            assert(v.step(msg).1 =~= seq![v.step(msg).1[0]]);
            assert(served(v.step(msg).1).add(waiting(v.pending)) =~= waiting(v.pending).insert(
                msg.caller()->0,
            ));
        },
    }
}

proof fn lemma_context_work_accounts(v: DeviceView, op: ContextOp)
    ensures
        served(v.context_work(op).1).add(waiting(v.context_work(op).0.pending)) == waiting(
            v.pending,
        ).insert(op.reply()),
{
    if v.ready() {
        lemma_served_one(DeviceAction::ToContext(op));
        assert(served(v.context_work(op).1).add(waiting(v.pending)) =~= waiting(v.pending).insert(
            op.reply(),
        ));
    } else {
        lemma_enqueued_accounts(v, WorkRequest::Boxed(op));
    }
}

/// Every caller that waits is seen to by exactly one action or is still in the
/// queue: no reply channel is lost, and none is used twice.
pub proof fn law_every_caller_accounted(start: DeviceView, msgs: Seq<DeviceMsg>)
    ensures
        served(start.run(msgs).1).add(waiting(start.run(msgs).0.pending)) == waiting(
            start.pending,
        ).add(callers(msgs)),
    decreases msgs.len(),
{
    if msgs.len() == 0 {
        lemma_none_served();
        assert(start.run(msgs).1 =~= Seq::<DeviceAction>::empty());
        assert(served(start.run(msgs).1).add(waiting(start.pending)) =~= waiting(
            start.pending,
        ).add(callers(msgs)));
    } else {
        let front = msgs.drop_last();
        let (mid, before) = start.run(front);
        let (end, last) = mid.step(msgs.last());
        law_every_caller_accounted(start, front);
        lemma_step_accounts(mid, msgs.last());
        lemma_served_both(before, last);
        assert(served(before + last).add(waiting(end.pending)) =~= served(before).add(
            served(last).add(waiting(end.pending)),
        ));
        match msgs.last().caller() {
            Some(reply) => {
                assert(served(before).add(waiting(mid.pending).insert(reply)) =~= served(before).add(
                    waiting(mid.pending),
                ).insert(reply));
                assert(waiting(start.pending).add(callers(front)).insert(reply) =~= waiting(
                    start.pending,
                ).add(callers(front).insert(reply)));
            },
            None => {},
        }
    }
}

/// Stopping the device leaves no caller waiting: the callers of all the messages
/// it ever took are seen to, each once, the queue is empty, and no more work is
/// taken.
pub proof fn law_stop_leaves_nobody_waiting(start: DeviceView, msgs: Seq<DeviceMsg>)
    ensures
        start.run(msgs).0.stopped().0.pending.len() == 0,
        !start.run(msgs).0.stopped().0.state.accepting,
        served(start.run(msgs).1 + start.run(msgs).0.stopped().1) == waiting(start.pending).add(
            callers(msgs),
        ),
{
    law_every_caller_accounted(start, msgs);
    let (end, actions) = start.run(msgs);
    lemma_served_both(actions, end.stopped().1);
    assert(end.stopped().1.map_values(|a: DeviceAction| a.reply()) =~= end.pending.map_values(
        |w: WorkRequest| w.reply(),
    ));
}

/// Work that arrives while the context is away is queued without an action,
/// as long as there is room.
pub proof fn law_work_waits_for_context(start: DeviceView, msgs: Seq<DeviceMsg>)
    requires
        start.children is None,
        forall|i: int| 0 <= i < msgs.len() ==> work_of(#[trigger] msgs[i]) is Some,
        start.pending.len() + msgs.len() <= start.config.pending_queue_capacity,
    ensures
        start.run(msgs) == (
            DeviceView {
                pending: start.pending + msgs.map_values(|m: DeviceMsg| work_of(m)->0),
                ..start
            },
            Seq::<DeviceAction>::empty(),
        ),
    decreases msgs.len(),
{
    let works = msgs.map_values(|m: DeviceMsg| work_of(m)->0);
    if msgs.len() == 0 {
        assert(start.pending + works =~= start.pending);
        assert(start.run(msgs).0 =~= DeviceView { pending: start.pending + works, ..start });
        assert(start.run(msgs).1 =~= Seq::<DeviceAction>::empty());
    } else {
        let front = msgs.drop_last();
        assert forall|i: int| 0 <= i < front.len() implies work_of(#[trigger] front[i]) is Some by {
            assert(front[i] == msgs[i]);
        }
        law_work_waits_for_context(start, front);
        lemma_collapse_kind(msgs.last());
        assert(work_of(msgs[msgs.len() - 1]) is Some);
        let mid = start.run(front).0;
        let front_works = front.map_values(|m: DeviceMsg| work_of(m)->0);
        assert(mid.step(msgs.last()).0.pending =~= mid.pending.push(work_of(msgs.last())->0));
        assert(works =~= front_works.push(work_of(msgs.last())->0));
        assert(start.pending + works =~= (start.pending + front_works).push(
            work_of(msgs.last())->0,
        ));
        assert(start.run(msgs).0 =~= DeviceView { pending: start.pending + works, ..start });
        assert(start.run(msgs).1 =~= Seq::<DeviceAction>::empty());
    }
}

/// Once the context is ready, everything that waited for it is released in
/// arrival order, and nothing waits any more.
pub proof fn law_released_in_arrival_order(
    start: DeviceView,
    msgs: Seq<DeviceMsg>,
    children: KernelChildren,
)
    requires
        start.has_context,
        start.children is None,
        forall|i: int| 0 <= i < msgs.len() ==> work_of(#[trigger] msgs[i]) is Some,
        start.pending.len() + msgs.len() <= start.config.pending_queue_capacity,
    ensures
        ({
            let queued = start.pending + msgs.map_values(|m: DeviceMsg| work_of(m)->0);
            let end = start.run(msgs.push(DeviceMsg::ContextReady { children }));
            &&& end.0.pending.len() == 0
            &&& end.0.children == Some(children)
            &&& end.1 == queued.map_values(|w: WorkRequest| start.released(w, children))
        }),
{
    law_work_waits_for_context(start, msgs);
    let ready = DeviceMsg::ContextReady { children };
    let all = msgs.push(ready);
    assert(all.drop_last() =~= msgs);
    assert(all.last() == ready);
    lemma_collapse_kind(ready);
    let queued = start.pending + msgs.map_values(|m: DeviceMsg| work_of(m)->0);
    let mid = start.run(msgs).0;
    let open = DeviceView { children: Some(children), ..mid };
    assert(open.ready());
    assert(mid.step(ready) == open.drained());
    assert(start.run(all).1 =~= queued.map_values(
        |w: WorkRequest| start.released(w, children),
    ));
}

/// Once the context is ready, a snapshot gives its children, and so leads to
/// their registry of extra ones. A snapshot changes nothing.
pub proof fn law_snapshot_leads_to_the_registry(
    start: DeviceView,
    children: KernelChildren,
    reply: u64,
)
    ensures
        ({
            let ready = start.step(DeviceMsg::ContextReady { children }).0;
            let (after, actions) = ready.step(DeviceMsg::SnapshotChildren { reply });
            &&& after == ready
            &&& actions == seq![
                DeviceAction::ReplyChildren { reply, children: Some(children) },
            ]
        }),
{
}

/// A device whose context is ready hands every operation on to the context as it
/// came, and every product to the context's BLAS actor, and changes nothing in
/// itself.
pub proof fn law_ready_device_hands_on(
    d: DeviceView,
    children: KernelChildren,
    alloc: AllocOp,
    to_host: CopyToHostOp,
    from_host: CopyFromHostOp,
    product: SgemmRequest,
)
    requires
        d.has_context,
        d.children == Some(children),
    ensures
        d.step(DeviceMsg::Alloc(alloc)) == (
            d,
            seq![DeviceAction::ToContext(ContextOp::Alloc(alloc))],
        ),
        d.step(DeviceMsg::CopyToHost(to_host)) == (
            d,
            seq![DeviceAction::ToContext(ContextOp::CopyToHost(to_host))],
        ),
        d.step(DeviceMsg::CopyFromHost(from_host)) == (
            d,
            seq![DeviceAction::ToContext(ContextOp::CopyFromHost(from_host))],
        ),
        d.step(DeviceMsg::Sgemm(product)) == (
            d,
            seq![DeviceAction::ToBlas { blas: children.blas, request: product }],
        ),
{
}

/// When the context becomes ready, every queued item is acted on once, in the
/// order in which it came: an operation goes to the context as it was queued, a
/// product to the BLAS actor of the new children, and a question for the context
/// is answered with it. Nothing is dropped or refused, and the queue is empty.
pub proof fn law_drain_hands_on_the_queue(d: DeviceView, children: KernelChildren)
    requires
        d.has_context,
    ensures
        ({
            let (after, actions) = d.step(DeviceMsg::ContextReady { children });
            &&& actions.len() == d.pending.len()
            &&& after.pending.len() == 0
            &&& after.children == Some(children)
            &&& after.config == d.config && after.state == d.state && after.has_context
            &&& forall|k: int|
                0 <= k < d.pending.len() ==> match d.pending[k] {
                    WorkRequest::Boxed(op) => #[trigger] actions[k] == DeviceAction::ToContext(op),
                    WorkRequest::Sgemm(request) => actions[k] == (DeviceAction::ToBlas {
                        blas: children.blas,
                        request,
                    }),
                    WorkRequest::SnapshotContext { reply } => actions[k] == (
                    DeviceAction::ReplyContext { reply, context: d.state.context }),
                }
            &&& forall|k: int|
                0 <= k < actions.len() ==> !(#[trigger] actions[k] is DropReply)
                    && !(actions[k] is RefuseSgemm)
        }),
{
}

/// Children that arrive while there is no context actor release nothing: the queue
/// stays as it is.
pub proof fn law_no_drain_without_context(d: DeviceView, children: KernelChildren)
    requires
        !d.has_context,
    ensures
        d.step(DeviceMsg::ContextReady { children }).1.len() == 0,
        d.step(DeviceMsg::ContextReady { children }).0.pending == d.pending,
        d.step(DeviceMsg::ContextReady { children }).0.children == Some(children),
{
}

/// Queueing a piece of work and then becoming ready comes to the same as sending
/// it to a device that is ready already.
pub proof fn law_queued_work_loses_nothing(
    d: DeviceView,
    msg: DeviceMsg,
    children: KernelChildren,
)
    requires
        d.has_context,
        d.children is None,
        d.pending.len() == 0,
        d.config.pending_queue_capacity > 0,
        work_of(msg) is Some,
    ensures
        ({
            let ready = DeviceView { children: Some(children), ..d };
            let waited = d.step(msg).0.step(DeviceMsg::ContextReady { children });
            &&& d.step(msg).1.len() == 0
            &&& waited.1 == ready.step(msg).1
            &&& waited.1.len() == 1
            &&& waited.0 == ready.step(msg).0
        }),
{
    let ready = DeviceView { children: Some(children), ..d };
    let waited = d.step(msg).0.step(DeviceMsg::ContextReady { children });
    assert(waited.1 =~= ready.step(msg).1);
    assert(waited.0.pending =~= d.pending);
    assert(waited.0 =~= ready.step(msg).0);
}

/// While the context actor or its kernel actors are away, an operation is put at
/// the end of the queue as it came, and nothing is done for it yet. A product
/// waits only where there is no BLAS actor.
pub proof fn law_work_is_queued_as_it_came(
    d: DeviceView,
    alloc: AllocOp,
    to_host: CopyToHostOp,
    from_host: CopyFromHostOp,
    product: SgemmRequest,
)
    requires
        !d.has_context || d.children is None,
        d.pending.len() < d.config.pending_queue_capacity,
    ensures
        d.step(DeviceMsg::Alloc(alloc)) == (
            DeviceView {
                pending: d.pending.push(WorkRequest::Boxed(ContextOp::Alloc(alloc))),
                ..d
            },
            Seq::<DeviceAction>::empty(),
        ),
        d.step(DeviceMsg::CopyToHost(to_host)) == (
            DeviceView {
                pending: d.pending.push(WorkRequest::Boxed(ContextOp::CopyToHost(to_host))),
                ..d
            },
            Seq::<DeviceAction>::empty(),
        ),
        d.step(DeviceMsg::CopyFromHost(from_host)) == (
            DeviceView {
                pending: d.pending.push(WorkRequest::Boxed(ContextOp::CopyFromHost(from_host))),
                ..d
            },
            Seq::<DeviceAction>::empty(),
        ),
        d.children is None ==> d.step(DeviceMsg::Sgemm(product)) == (
            DeviceView { pending: d.pending.push(WorkRequest::Sgemm(product)), ..d },
            Seq::<DeviceAction>::empty(),
        ),
        d.children matches Some(c) ==> d.step(DeviceMsg::Sgemm(product)) == (
            d,
            seq![DeviceAction::ToBlas { blas: c.blas, request: product }],
        ),
{
}

/// A full queue changes nothing and turns the work away: the channel of an
/// operation is closed, and a product is answered that the queue is full. A
/// product that a BLAS actor is there for is not turned away.
pub proof fn law_full_queue_turns_work_away(
    d: DeviceView,
    alloc: AllocOp,
    to_host: CopyToHostOp,
    from_host: CopyFromHostOp,
    product: SgemmRequest,
)
    requires
        !d.has_context || d.children is None,
        d.pending.len() >= d.config.pending_queue_capacity,
    ensures
        d.step(DeviceMsg::Alloc(alloc)) == (
            d,
            seq![DeviceAction::DropReply { reply: alloc.reply }],
        ),
        d.step(DeviceMsg::CopyToHost(to_host)) == (
            d,
            seq![DeviceAction::DropReply { reply: to_host.reply }],
        ),
        d.step(DeviceMsg::CopyFromHost(from_host)) == (
            d,
            seq![DeviceAction::DropReply { reply: from_host.reply }],
        ),
        d.children is None ==> d.step(DeviceMsg::Sgemm(product)) == (
            d,
            seq![
                DeviceAction::RefuseSgemm {
                    reply: product.reply,
                    refusal: SgemmRefusal::QueueFull,
                },
            ],
        ),
        d.children matches Some(c) ==> d.step(DeviceMsg::Sgemm(product)) == (
            d,
            seq![DeviceAction::ToBlas { blas: c.blas, request: product }],
        ),
        SgemmRefusal::QueueFull.error() == ErrorView::Unrecoverable("device pending queue full"@),
{
}

/// A device that stops takes no more work and lets go of its whole queue in
/// order: the channel of an operation is closed, a product is answered that the
/// device is shutting down, and a question for the context that there is none.
pub proof fn law_stop_cancels_in_order(d: DeviceView)
    ensures
        !d.stopped().0.state.accepting,
        d.stopped().0.state.generation == d.state.generation,
        d.stopped().0.state.device_id == d.state.device_id,
        d.stopped().0.state.context == d.state.context,
        d.stopped().0.config == d.config,
        d.stopped().0.has_context == d.has_context,
        d.stopped().0.children == d.children,
        d.stopped().0.pending.len() == 0,
        d.stopped().1.len() == d.pending.len(),
        forall|k: int|
            0 <= k < d.pending.len() ==> match d.pending[k] {
                WorkRequest::Boxed(ContextOp::Alloc(op)) => #[trigger] d.stopped().1[k] == (
                DeviceAction::DropReply { reply: op.reply }),
                WorkRequest::Boxed(ContextOp::CopyToHost(op)) => d.stopped().1[k] == (
                DeviceAction::DropReply { reply: op.reply }),
                WorkRequest::Boxed(ContextOp::CopyFromHost(op)) => d.stopped().1[k] == (
                DeviceAction::DropReply { reply: op.reply }),
                WorkRequest::Sgemm(req) => d.stopped().1[k] == (DeviceAction::RefuseSgemm {
                    reply: req.reply,
                    refusal: SgemmRefusal::ShuttingDown,
                }),
                WorkRequest::SnapshotContext { reply } => d.stopped().1[k] == (
                DeviceAction::ReplyContext { reply, context: None }),
            },
        SgemmRefusal::ShuttingDown.error() == ErrorView::GpuRefStale("device shutting down"@),
{
}

/// Questions are answered at once from what the device knows, and change nothing.
pub proof fn law_questions_change_nothing(d: DeviceView, reply: u64)
    ensures
        d.step(DeviceMsg::SnapshotContext { reply }) == (
            d,
            seq![DeviceAction::ReplyContext { reply, context: d.state.context }],
        ),
        d.step(DeviceMsg::SnapshotStream { reply }) == (
            d,
            seq![
                if d.has_context {
                    DeviceAction::StreamViaContext { reply }
                } else {
                    DeviceAction::ReplyNoStream { reply }
                },
            ],
        ),
        d.step(DeviceMsg::SnapshotChildren { reply }) == (
            d,
            seq![DeviceAction::ReplyChildren { reply, children: d.children }],
        ),
        d.step(DeviceMsg::WatchGeneration { reply }) == (
            d,
            seq![DeviceAction::ReplyWatch { reply }],
        ),
        d.step(DeviceMsg::Stats { reply }).0 == d,
        d.step(DeviceMsg::Stats { reply }).1.len() == 1,
        d.step(DeviceMsg::Stats { reply }).1[0] matches DeviceAction::ReplyLoad { reply: to, load }
            && to == reply && (d.pending.len() <= u32::MAX ==> load.queue_depth
            == d.pending.len()),
{
}

/// Losing the context forgets its kernel actors and nothing else.
pub proof fn law_lost_context_keeps_the_queue(d: DeviceView)
    ensures
        d.step(DeviceMsg::ContextLost) == (
            DeviceView { children: None, ..d },
            Seq::<DeviceAction>::empty(),
        ),
{
}

/// The only action is an allocation of this many elements of this type.
pub open spec fn allocates(
    actions: Seq<DeviceAction>,
    dtype: DTypeKind,
    len: usize,
    reply: u64,
) -> bool {
    actions == seq![DeviceAction::ToContext(ContextOp::Alloc(AllocOp { dtype, len, reply }))]
}

/// Each older spelling of an allocation asks a ready context for the elements
/// that its name says.
pub proof fn law_older_allocations(d: DeviceView, len: usize, reply: u64)
    requires
        d.ready(),
    ensures
        allocates(d.step(DeviceMsg::AllocateF32 { len, reply }).1, DTypeKind::F32, len, reply),
        allocates(d.step(DeviceMsg::AllocateF64 { len, reply }).1, DTypeKind::F64, len, reply),
        allocates(d.step(DeviceMsg::AllocateI8 { len, reply }).1, DTypeKind::I8, len, reply),
        allocates(d.step(DeviceMsg::AllocateI32 { len, reply }).1, DTypeKind::I32, len, reply),
        allocates(d.step(DeviceMsg::AllocateI64 { len, reply }).1, DTypeKind::I64, len, reply),
        allocates(d.step(DeviceMsg::AllocateU8 { len, reply }).1, DTypeKind::U8, len, reply),
        allocates(d.step(DeviceMsg::AllocateU32 { len, reply }).1, DTypeKind::U32, len, reply),
        allocates(d.step(DeviceMsg::AllocateU64 { len, reply }).1, DTypeKind::U64, len, reply),
        allocates(d.step(DeviceMsg::AllocateF16 { len, reply }).1, DTypeKind::F16, len, reply),
        allocates(d.step(DeviceMsg::AllocateBf16 { len, reply }).1, DTypeKind::Bf16, len, reply),
        allocates(d.step(DeviceMsg::Allocate { len, reply }).1, DTypeKind::F32, len, reply),
{
}

/// The only action is a copy of this buffer to the host memory.
pub open spec fn copies_out<T>(
    actions: Seq<DeviceAction>,
    dtype: DTypeKind,
    src: GpuRef<T>,
    dst: HostBuf,
    reply: u64,
) -> bool {
    &&& actions.len() == 1
    &&& actions[0] matches DeviceAction::ToContext(ContextOp::CopyToHost(op)) && {
        &&& op.dtype == dtype
        &&& op.src.slice == src.slice
        &&& op.src.generation == src.generation
        &&& op.src.device == src.device
        &&& op.src.buffer == src.buffer
        &&& op.dst == dst
        &&& op.reply == reply
    }
}

/// The only action is a copy of the host memory to this buffer.
pub open spec fn copies_in<T>(
    actions: Seq<DeviceAction>,
    dtype: DTypeKind,
    src: HostBuf,
    dst: GpuRef<T>,
    reply: u64,
) -> bool {
    &&& actions.len() == 1
    &&& actions[0] matches DeviceAction::ToContext(ContextOp::CopyFromHost(op)) && {
        &&& op.dtype == dtype
        &&& op.src == src
        &&& op.dst.slice == dst.slice
        &&& op.dst.generation == dst.generation
        &&& op.dst.device == dst.device
        &&& op.dst.buffer == dst.buffer
        &&& op.reply == reply
    }
}

/// Each older spelling of a copy to the host asks a ready context for that copy,
/// of the elements that its name says.
pub proof fn law_older_copies_out(
    d: DeviceView,
    f32s: GpuRef<F32>,
    f64s: GpuRef<F64>,
    i32s: GpuRef<i32>,
    u32s: GpuRef<u32>,
    u8s: GpuRef<u8>,
    dst: HostBuf,
    reply: u64,
)
    requires
        d.ready(),
    ensures
        copies_out(
            d.step(DeviceMsg::CopyToHostF32 { src: f32s, dst, reply }).1,
            DTypeKind::F32,
            f32s,
            dst,
            reply,
        ),
        copies_out(
            d.step(DeviceMsg::CopyToHostF64 { src: f64s, dst, reply }).1,
            DTypeKind::F64,
            f64s,
            dst,
            reply,
        ),
        copies_out(
            d.step(DeviceMsg::CopyToHostI32 { src: i32s, dst, reply }).1,
            DTypeKind::I32,
            i32s,
            dst,
            reply,
        ),
        copies_out(
            d.step(DeviceMsg::CopyToHostU32 { src: u32s, dst, reply }).1,
            DTypeKind::U32,
            u32s,
            dst,
            reply,
        ),
        copies_out(
            d.step(DeviceMsg::CopyToHostU8 { src: u8s, dst, reply }).1,
            DTypeKind::U8,
            u8s,
            dst,
            reply,
        ),
{
}

/// Each older spelling of a copy from the host asks a ready context for that copy,
/// of the elements that its name says.
pub proof fn law_older_copies_in(
    d: DeviceView,
    src: HostBuf,
    f32s: GpuRef<F32>,
    f64s: GpuRef<F64>,
    i32s: GpuRef<i32>,
    u32s: GpuRef<u32>,
    u8s: GpuRef<u8>,
    reply: u64,
)
    requires
        d.ready(),
    ensures
        copies_in(
            d.step(DeviceMsg::CopyFromHostF32 { src, dst: f32s, reply }).1,
            DTypeKind::F32,
            src,
            f32s,
            reply,
        ),
        copies_in(
            d.step(DeviceMsg::CopyFromHostF64 { src, dst: f64s, reply }).1,
            DTypeKind::F64,
            src,
            f64s,
            reply,
        ),
        copies_in(
            d.step(DeviceMsg::CopyFromHostI32 { src, dst: i32s, reply }).1,
            DTypeKind::I32,
            src,
            i32s,
            reply,
        ),
        copies_in(
            d.step(DeviceMsg::CopyFromHostU32 { src, dst: u32s, reply }).1,
            DTypeKind::U32,
            src,
            u32s,
            reply,
        ),
        copies_in(
            d.step(DeviceMsg::CopyFromHostU8 { src, dst: u8s, reply }).1,
            DTypeKind::U8,
            src,
            u8s,
            reply,
        ),
{
}

/// The messages that the typed constructors make reach a ready context as the
/// allocation or copy that they were made for.
pub proof fn law_typed_messages_reach_the_context<T: CudaDtype>(
    d: DeviceView,
    buffer: GpuRef<T>,
    host: HostBuf,
    len: usize,
    reply: u64,
    out: DeviceMsg,
    back: DeviceMsg,
    alloc_msg: DeviceMsg,
)
    requires
        d.ready(),
        call_ensures(DeviceMsg::copy_to_host::<T>, (buffer, host, reply), out),
        call_ensures(DeviceMsg::copy_from_host::<T>, (host, buffer, reply), back),
        call_ensures(DeviceMsg::alloc_typed::<T>, (len, reply), alloc_msg),
    ensures
        copies_out(d.step(out).1, T::spec_element().spec_kind(), buffer, host, reply),
        copies_in(d.step(back).1, T::spec_element().spec_kind(), host, buffer, reply),
        allocates(d.step(alloc_msg).1, T::spec_element().spec_kind(), len, reply),
{
}

/// The load of a device says how long its queue is, and claims nothing else.
pub proof fn law_load_is_the_queue(d: DeviceView)
    requires
        d.pending.len() <= u32::MAX,
    ensures
        d.load().queue_depth == d.pending.len(),
        d.load().free_bytes == 0,
        d.load().total_bytes == 0,
        d.load().active_streams == 0,
        d.load().compute_cap == (0u32, 0u32),
{
}

proof fn lemma_waiting_run(d: DeviceView, msgs: Seq<DeviceMsg>, children: KernelChildren)
    requires
        d.has_context,
        d.children is None,
        d.pending.len() == 0,
        msgs.len() <= d.config.pending_queue_capacity,
        forall|i: int| 0 <= i < msgs.len() ==> #[trigger] work_of(msgs[i]) is Some,
    ensures
        ({
            let waited = d.run(msgs);
            let ready = DeviceView { children: Some(children), ..d };
            &&& waited.1.len() == 0
            &&& waited.0.pending.len() == msgs.len()
            &&& waited.0 == (DeviceView { pending: waited.0.pending, ..d })
            &&& ready.run(msgs).0 == ready
            &&& ready.run(msgs).1 == waited.0.pending.map_values(
                |w: WorkRequest| ready.released(w, children),
            )
        }),
    decreases msgs.len(),
{
    let ready = DeviceView { children: Some(children), ..d };
    let f = |w: WorkRequest| ready.released(w, children);
    if msgs.len() == 0 {
        assert(d.pending =~= Seq::<WorkRequest>::empty());
        assert(ready.run(msgs).1 =~= d.run(msgs).0.pending.map_values(f));
    } else {
        let front = msgs.drop_last();
        let last = msgs.last();
        assert forall|i: int| 0 <= i < front.len() implies #[trigger] work_of(front[i]) is Some by {
            assert(front[i] == msgs[i]);
        }
        assert(work_of(msgs[msgs.len() - 1]) is Some);
        lemma_waiting_run(d, front, children);
        let mid = d.run(front).0;
        let work = work_of(last)->0;
        assert(mid.step(last).0.pending == mid.pending.push(work));
        assert(mid.step(last).1 =~= Seq::<DeviceAction>::empty());
        assert(ready.step(last).1 =~= seq![f(work)]);
        assert(mid.pending.push(work).map_values(f) =~= mid.pending.map_values(f).push(f(work)));
        assert(ready.run(msgs).1 =~= mid.pending.map_values(f).push(f(work)));
        assert(d.run(msgs).1 =~= Seq::<DeviceAction>::empty());
    }
}

/// Any series of work that is queued while the kernel actors are away and released
/// when they come calls for the same actions, in the same order, as if they had
/// been there from the start.
pub proof fn law_queued_series_loses_nothing(
    d: DeviceView,
    msgs: Seq<DeviceMsg>,
    children: KernelChildren,
)
    requires
        d.has_context,
        d.children is None,
        d.pending.len() == 0,
        msgs.len() <= d.config.pending_queue_capacity,
        forall|i: int| 0 <= i < msgs.len() ==> #[trigger] work_of(msgs[i]) is Some,
    ensures
        ({
            let ready = DeviceView { children: Some(children), ..d };
            let released = d.run(msgs.push(DeviceMsg::ContextReady { children }));
            &&& released.1 == ready.run(msgs).1
            &&& released.0 == ready.run(msgs).0
            &&& released.1.len() == msgs.len()
        }),
{
    lemma_waiting_run(d, msgs, children);
    let ready = DeviceView { children: Some(children), ..d };
    let all = msgs.push(DeviceMsg::ContextReady { children });
    assert(all.drop_last() =~= msgs);
    let mid = d.run(msgs).0;
    let (end, actions) = mid.step(DeviceMsg::ContextReady { children });
    let f = |w: WorkRequest| ready.released(w, children);
    assert(actions =~= mid.pending.map_values(f));
    assert(d.run(all).1 =~= actions);
    assert(end.pending =~= d.pending);
    assert(end =~= ready);
}

} // verus!
