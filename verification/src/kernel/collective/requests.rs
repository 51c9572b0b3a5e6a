//! Typed collective requests and their common erased form.

use vstd::prelude::*;
use vstd::string::*;

use crate::dtype::Element;
use crate::error::{ErrorView, GpuError};
use crate::error;
use crate::gpu_ref::{DeviceSlice, GpuRef, MemoryTable, MemoryView};
use crate::kernel::collective::all_to_all;
use crate::kernel::collective::all_to_all::{AllToAllBody, AllToAllvBody};
use crate::kernel::collective::run::{CollStep, CollectiveRun, Overrun, PeerScope, Span};
use crate::kernel::collective::{DispatchDType, NcclReduceSupported, ReduceOp};
use crate::kernel::envelope;
use crate::kernel::envelope::access_all_2;
use crate::text::{join3, unsigned_text};
use crate::text;

verus! {

/// In-place reduction of a tensor over all the ranks.
pub struct AllReduceRequest<T: NcclReduceSupported> {
    pub tensor: GpuRef<T>,
    pub op: ReduceOp,
    pub reply: u64,
}

/// In-place broadcast from the rank `root`.
pub struct BroadcastRequest<T: NcclReduceSupported> {
    pub data: GpuRef<T>,
    pub root: usize,
    pub reply: u64,
}

/// Concatenation of every rank's `send` in every rank's `recv`.
pub struct AllGatherRequest<T: NcclReduceSupported> {
    pub send: GpuRef<T>,
    pub recv: GpuRef<T>,
    pub reply: u64,
}

/// Reduction of `send` over all the ranks, each of which gets a shard in `recv`.
pub struct ReduceScatterRequest<T: NcclReduceSupported> {
    pub send: GpuRef<T>,
    pub recv: GpuRef<T>,
    pub op: ReduceOp,
    pub reply: u64,
}

/// Reduction of `send` over all the ranks into `recv` of the rank `root`. The
/// other ranks need no `recv`.
pub struct ReduceRequest<T: NcclReduceSupported> {
    pub send: GpuRef<T>,
    pub recv: Option<GpuRef<T>>,
    pub op: ReduceOp,
    pub root: i32,
    pub reply: u64,
}

/// Send of a buffer to a rank, paired with a receive there.
pub struct SendRequest<T: NcclReduceSupported> {
    pub data: GpuRef<T>,
    pub peer: i32,
    pub reply: u64,
}

/// Receive of a buffer from a rank.
pub struct RecvRequest<T: NcclReduceSupported> {
    pub data: GpuRef<T>,
    pub peer: i32,
    pub reply: u64,
}

/// The buffers and arguments of a collective, without its element type.
#[allow(inconsistent_fields)]
pub enum CollectiveBody {
    AllReduce { tensor: GpuRef<()>, op: ReduceOp },
    Broadcast { data: GpuRef<()>, root: usize },
    AllGather { send: GpuRef<()>, recv: GpuRef<()> },
    ReduceScatter { send: GpuRef<()>, recv: GpuRef<()>, op: ReduceOp },
    Reduce { send: GpuRef<()>, recv: Option<GpuRef<()>>, op: ReduceOp, root: i32 },
    Send { data: GpuRef<()>, peer: i32 },
    Recv { data: GpuRef<()>, peer: i32 },
    AllToAll(AllToAllBody),
    AllToAllv(AllToAllvBody),
}

/// A collective with its element type as a tag.
pub struct CollectiveOp {
    pub element: Element,
    pub dtype: DispatchDType,
    pub body: CollectiveBody,
    pub reply: u64,
}

/// The first device id that is there.
pub open spec fn first_device(a: Option<u32>, b: Option<u32>) -> Option<u32> {
    match a {
        Some(id) => Some(id),
        None => b,
    }
}

fn either_device(a: Option<u32>, b: Option<u32>) -> (r: Option<u32>)
    ensures
        r == first_device(a, b),
{
    match a {
        Some(id) => Some(id),
        None => b,
    }
}

/// A buffer that the collective writes: valid, and solely owned.
pub open spec fn writable(r: GpuRef<()>, refusal: Seq<char>, m: MemoryView) -> Result<
    DeviceSlice,
    ErrorView,
> {
    match r.validity(m) {
        Err(e) => Err(e),
        Ok(s) => if r.is_sole_owner(m) {
            Ok(s)
        } else {
            Err(ErrorView::Unrecoverable(refusal))
        },
    }
}

pub(crate) fn access_writable(r: &GpuRef<()>, refusal: &str, mem: &MemoryTable) -> (s: Result<
    DeviceSlice,
    GpuError,
>)
    ensures
        error::outcome(s) == writable(*r, refusal@, mem@),
{
    match r.access(mem) {
        Err(e) => Err(e),
        Ok(s) => if r.sole_owner(mem) {
            Ok(s)
        } else {
            Err(GpuError::unrecoverable(refusal))
        },
    }
}

/// A read buffer, then a written one.
pub open spec fn read_then_write(
    send: GpuRef<()>,
    recv: GpuRef<()>,
    refusal: Seq<char>,
    m: MemoryView,
) -> Result<(DeviceSlice, DeviceSlice), ErrorView> {
    match envelope::valid_2(send, recv, m) {
        Err(e) => Err(e),
        Ok((s, r)) => if recv.is_sole_owner(m) {
            Ok((s, r))
        } else {
            Err(ErrorView::Unrecoverable(refusal))
        },
    }
}

pub(crate) fn access_read_then_write(
    send: &GpuRef<()>,
    recv: &GpuRef<()>,
    refusal: &str,
    mem: &MemoryTable,
) -> (r: Result<(DeviceSlice, DeviceSlice), GpuError>)
    ensures
        error::outcome(r) == read_then_write(*send, *recv, refusal@, mem@),
{
    match access_all_2(send, recv, mem) {
        Err(e) => Err(e),
        Ok((s, r)) => if recv.sole_owner(mem) {
            Ok((s, r))
        } else {
            Err(GpuError::unrecoverable(refusal))
        },
    }
}

/// The calls of a request and the overrun that ends them early, if any.
pub open spec fn one_call(step: CollStep) -> (Seq<CollStep>, Option<Overrun>) {
    (seq![step], None)
}

/// A whole buffer as a span.
pub open spec fn whole(s: DeviceSlice) -> Span {
    Span { ptr: s.ptr, offset: 0, len: s.len }
}

impl CollectiveBody {
    /// The device that the request's buffers are on, while it exists.
    pub open spec fn spec_device_id(self, m: MemoryView) -> Option<u32> {
        match self {
            CollectiveBody::AllReduce { tensor, .. } => tensor.spec_device_id(m),
            CollectiveBody::Broadcast { data, .. } => data.spec_device_id(m),
            CollectiveBody::AllGather { send, recv } => first_device(
                send.spec_device_id(m),
                recv.spec_device_id(m),
            ),
            CollectiveBody::ReduceScatter { send, recv, .. } => first_device(
                send.spec_device_id(m),
                recv.spec_device_id(m),
            ),
            CollectiveBody::Reduce { send, recv, .. } => first_device(
                send.spec_device_id(m),
                match recv {
                    Some(r) => r.spec_device_id(m),
                    None => None,
                },
            ),
            CollectiveBody::Send { data, .. } => data.spec_device_id(m),
            CollectiveBody::Recv { data, .. } => data.spec_device_id(m),
            CollectiveBody::AllToAll(b) => first_device(
                b.send.spec_device_id(m),
                b.recv.spec_device_id(m),
            ),
            CollectiveBody::AllToAllv(b) => first_device(
                b.send.spec_device_id(m),
                b.recv.spec_device_id(m),
            ),
        }
    }

    /// The calls to make in a world of this size, or why the request is
    /// refused before the first one.
    pub open spec fn plan(self, world_size: usize, m: MemoryView) -> Result<
        (Seq<CollStep>, Option<Overrun>),
        ErrorView,
    > {
        match self {
            CollectiveBody::AllReduce { tensor, op } => match writable(
                tensor,
                "AllReduce tensor has multiple live references"@,
                m,
            ) {
                Err(e) => Err(e),
                Ok(buf) => Ok(one_call(CollStep::AllReduceInPlace { buf, op })),
            },
            CollectiveBody::Broadcast { data, root } => match writable(
                data,
                "Broadcast data has multiple live references"@,
                m,
            ) {
                Err(e) => Err(e),
                Ok(buf) => if root <= i32::MAX {
                    Ok(one_call(CollStep::BroadcastInPlace { buf, root: root as i32 }))
                } else {
                    Err(
                        ErrorView::Unrecoverable(
                            "Broadcast: root "@ + text::decimal(root as nat)
                                + " does not fit in i32"@,
                        ),
                    )
                },
            },
            CollectiveBody::AllGather { send, recv } => match read_then_write(
                send,
                recv,
                "AllGather recv buffer has multiple live references"@,
                m,
            ) {
                Err(e) => Err(e),
                Ok((send, recv)) => Ok(one_call(CollStep::AllGather { send, recv })),
            },
            CollectiveBody::ReduceScatter { send, recv, op } => match read_then_write(
                send,
                recv,
                "ReduceScatter recv buffer has multiple live references"@,
                m,
            ) {
                Err(e) => Err(e),
                Ok((send, recv)) => Ok(one_call(CollStep::ReduceScatter { send, recv, op })),
            },
            CollectiveBody::Reduce { send, recv, op, root } => match send.validity(m) {
                Err(e) => Err(e),
                Ok(send) => match recv {
                    None => Ok(one_call(CollStep::Reduce { send, recv: None, op, root })),
                    Some(r) => match writable(
                        r,
                        "Reduce recv buffer has multiple live references"@,
                        m,
                    ) {
                        Err(e) => Err(e),
                        Ok(s) => Ok(
                            one_call(CollStep::Reduce { send, recv: Some(s), op, root }),
                        ),
                    },
                },
            },
            CollectiveBody::Send { data, peer } => match data.validity(m) {
                Err(e) => Err(e),
                Ok(s) => Ok(
                    one_call(
                        CollStep::Send {
                            span: whole(s),
                            rank: peer,
                            peer: 0,
                            scope: PeerScope::Single,
                        },
                    ),
                ),
            },
            CollectiveBody::Recv { data, peer } => match writable(
                data,
                "Recv buffer has multiple live references"@,
                m,
            ) {
                Err(e) => Err(e),
                Ok(s) => Ok(
                    one_call(
                        CollStep::Recv {
                            span: whole(s),
                            rank: peer,
                            peer: 0,
                            scope: PeerScope::Single,
                        },
                    ),
                ),
            },
            CollectiveBody::AllToAll(b) => all_to_all::all_to_all_plan(b, world_size, m),
            CollectiveBody::AllToAllv(b) => all_to_all::all_to_allv_plan(b, world_size, m),
        }
    }

    /// The device that the request's buffers are on, while it exists.
    pub fn device_id(&self, mem: &MemoryTable) -> (id: Option<u32>)
        ensures
            id == self.spec_device_id(mem@),
    {
        match self {
            CollectiveBody::AllReduce { tensor, .. } => tensor.device_id(mem),
            CollectiveBody::Broadcast { data, .. } => data.device_id(mem),
            CollectiveBody::AllGather { send, recv } => either_device(
                send.device_id(mem),
                recv.device_id(mem),
            ),
            CollectiveBody::ReduceScatter { send, recv, .. } => either_device(
                send.device_id(mem),
                recv.device_id(mem),
            ),
            CollectiveBody::Reduce { send, recv, .. } => {
                let r = match recv {
                    Some(r) => r.device_id(mem),
                    None => None,
                };
                either_device(send.device_id(mem), r)
            },
            CollectiveBody::Send { data, .. } => data.device_id(mem),
            CollectiveBody::Recv { data, .. } => data.device_id(mem),
            CollectiveBody::AllToAll(b) => either_device(
                b.send.device_id(mem),
                b.recv.device_id(mem),
            ),
            CollectiveBody::AllToAllv(b) => either_device(
                b.send.device_id(mem),
                b.recv.device_id(mem),
            ),
        }
    }

    /// Validate the request and give the calls to make in a world of this
    /// size.
    pub fn dispatch(&self, world_size: usize, mem: &MemoryTable) -> (r: Result<
        CollectiveRun,
        GpuError,
    >)
        ensures
            match self.plan(world_size, mem@) {
                Err(e) => r is Err && r->Err_0@ == e,
                Ok((steps, ending)) => r is Ok && r->Ok_0@ == (crate::steps::RunView {
                    steps,
                    done: 0,
                    failed: false,
                }) && r->Ok_0@.wf() && r->Ok_0.spec_ending() == ending,
            },
    {
        match self {
            CollectiveBody::AllReduce { tensor, op } => match access_writable(
                tensor,
                "AllReduce tensor has multiple live references",
                mem,
            ) {
                Err(e) => Err(e),
                Ok(buf) => Ok(CollectiveRun::single(CollStep::AllReduceInPlace { buf, op: *op })),
            },
            CollectiveBody::Broadcast { data, root } => match access_writable(
                data,
                "Broadcast data has multiple live references",
                mem,
            ) {
                Err(e) => Err(e),
                Ok(buf) => {
                    if *root <= i32::MAX as usize {
                        Ok(
                            CollectiveRun::single(
                                CollStep::BroadcastInPlace { buf, root: *root as i32 },
                            ),
                        )
                    } else {
                        let n = unsigned_text(*root as u64);
                        Err(
                            GpuError::Unrecoverable(
                                join3("Broadcast: root ", n.as_str(), " does not fit in i32"),
                            ),
                        )
                    }
                },
            },
            CollectiveBody::AllGather { send, recv } => match access_read_then_write(
                send,
                recv,
                "AllGather recv buffer has multiple live references",
                mem,
            ) {
                Err(e) => Err(e),
                Ok((send, recv)) => Ok(CollectiveRun::single(CollStep::AllGather { send, recv })),
            },
            CollectiveBody::ReduceScatter { send, recv, op } => match access_read_then_write(
                send,
                recv,
                "ReduceScatter recv buffer has multiple live references",
                mem,
            ) {
                Err(e) => Err(e),
                Ok((send, recv)) => Ok(
                    CollectiveRun::single(CollStep::ReduceScatter { send, recv, op: *op }),
                ),
            },
            CollectiveBody::Reduce { send, recv, op, root } => match send.access(mem) {
                Err(e) => Err(e),
                Ok(send) => match recv {
                    None => Ok(
                        CollectiveRun::single(
                            CollStep::Reduce { send, recv: None, op: *op, root: *root },
                        ),
                    ),
                    Some(r) => match access_writable(
                        r,
                        "Reduce recv buffer has multiple live references",
                        mem,
                    ) {
                        Err(e) => Err(e),
                        Ok(s) => Ok(
                            CollectiveRun::single(
                                CollStep::Reduce { send, recv: Some(s), op: *op, root: *root },
                            ),
                        ),
                    },
                },
            },
            CollectiveBody::Send { data, peer } => match data.access(mem) {
                Err(e) => Err(e),
                Ok(s) => Ok(
                    CollectiveRun::single(
                        CollStep::Send {
                            span: Span { ptr: s.ptr, offset: 0, len: s.len },
                            rank: *peer,
                            peer: 0,
                            scope: PeerScope::Single,
                        },
                    ),
                ),
            },
            CollectiveBody::Recv { data, peer } => match access_writable(
                data,
                "Recv buffer has multiple live references",
                mem,
            ) {
                Err(e) => Err(e),
                Ok(s) => Ok(
                    CollectiveRun::single(
                        CollStep::Recv {
                            span: Span { ptr: s.ptr, offset: 0, len: s.len },
                            rank: *peer,
                            peer: 0,
                            scope: PeerScope::Single,
                        },
                    ),
                ),
            },
            CollectiveBody::AllToAll(b) => b.dispatch(world_size, mem),
            CollectiveBody::AllToAllv(b) => b.dispatch(world_size, mem),
        }
    }
}

/// The erased form of a typed request.
pub trait CollectiveDispatch: Sized {
    spec fn spec_op(&self) -> CollectiveOp;

    /// The erased form.
    fn op(&self) -> (op: CollectiveOp)
        ensures
            op == self.spec_op(),
    ;
}

impl<T: NcclReduceSupported> CollectiveDispatch for AllReduceRequest<T> {
    open spec fn spec_op(&self) -> CollectiveOp {
        CollectiveOp {
            element: T::spec_element(),
            dtype: T::spec_dispatch_dtype(),
            body: CollectiveBody::AllReduce {
                tensor: self.tensor.spec_erased(),
                op: self.op,
            },
            reply: self.reply,
        }
    }

    fn op(&self) -> (op: CollectiveOp) {
        CollectiveOp {
            element: T::element(),
            dtype: T::dispatch_dtype(),
            body: CollectiveBody::AllReduce {
                tensor: self.tensor.erased(),
                op: self.op,
            },
            reply: self.reply,
        }
    }
}

impl<T: NcclReduceSupported> CollectiveDispatch for BroadcastRequest<T> {
    open spec fn spec_op(&self) -> CollectiveOp {
        CollectiveOp {
            element: T::spec_element(),
            dtype: T::spec_dispatch_dtype(),
            body: CollectiveBody::Broadcast {
                data: self.data.spec_erased(),
                root: self.root,
            },
            reply: self.reply,
        }
    }

    fn op(&self) -> (op: CollectiveOp) {
        CollectiveOp {
            element: T::element(),
            dtype: T::dispatch_dtype(),
            body: CollectiveBody::Broadcast {
                data: self.data.erased(),
                root: self.root,
            },
            reply: self.reply,
        }
    }
}

impl<T: NcclReduceSupported> CollectiveDispatch for AllGatherRequest<T> {
    open spec fn spec_op(&self) -> CollectiveOp {
        CollectiveOp {
            element: T::spec_element(),
            dtype: T::spec_dispatch_dtype(),
            body: CollectiveBody::AllGather {
                send: self.send.spec_erased(),
                recv: self.recv.spec_erased(),
            },
            reply: self.reply,
        }
    }

    fn op(&self) -> (op: CollectiveOp) {
        CollectiveOp {
            element: T::element(),
            dtype: T::dispatch_dtype(),
            body: CollectiveBody::AllGather {
                send: self.send.erased(),
                recv: self.recv.erased(),
            },
            reply: self.reply,
        }
    }
}

impl<T: NcclReduceSupported> CollectiveDispatch for ReduceScatterRequest<T> {
    open spec fn spec_op(&self) -> CollectiveOp {
        CollectiveOp {
            element: T::spec_element(),
            dtype: T::spec_dispatch_dtype(),
            body: CollectiveBody::ReduceScatter {
                send: self.send.spec_erased(),
                recv: self.recv.spec_erased(),
                op: self.op,
            },
            reply: self.reply,
        }
    }

    fn op(&self) -> (op: CollectiveOp) {
        CollectiveOp {
            element: T::element(),
            dtype: T::dispatch_dtype(),
            body: CollectiveBody::ReduceScatter {
                send: self.send.erased(),
                recv: self.recv.erased(),
                op: self.op,
            },
            reply: self.reply,
        }
    }
}

impl<T: NcclReduceSupported> CollectiveDispatch for ReduceRequest<T> {
    open spec fn spec_op(&self) -> CollectiveOp {
        CollectiveOp {
            element: T::spec_element(),
            dtype: T::spec_dispatch_dtype(),
            body: CollectiveBody::Reduce {
                send: self.send.spec_erased(),
                recv: match self.recv {
                    Some(r) => Some(r.spec_erased()),
                    None => None,
                },
                op: self.op,
                root: self.root,
            },
            reply: self.reply,
        }
    }

    fn op(&self) -> (op: CollectiveOp) {
        CollectiveOp {
            element: T::element(),
            dtype: T::dispatch_dtype(),
            body: CollectiveBody::Reduce {
                send: self.send.erased(),
                recv: match &self.recv {
                    Some(r) => Some(r.erased()),
                    None => None,
                },
                op: self.op,
                root: self.root,
            },
            reply: self.reply,
        }
    }
}

impl<T: NcclReduceSupported> CollectiveDispatch for SendRequest<T> {
    open spec fn spec_op(&self) -> CollectiveOp {
        CollectiveOp {
            element: T::spec_element(),
            dtype: T::spec_dispatch_dtype(),
            body: CollectiveBody::Send {
                data: self.data.spec_erased(),
                peer: self.peer,
            },
            reply: self.reply,
        }
    }

    fn op(&self) -> (op: CollectiveOp) {
        CollectiveOp {
            element: T::element(),
            dtype: T::dispatch_dtype(),
            body: CollectiveBody::Send {
                data: self.data.erased(),
                peer: self.peer,
            },
            reply: self.reply,
        }
    }
}

impl<T: NcclReduceSupported> CollectiveDispatch for RecvRequest<T> {
    open spec fn spec_op(&self) -> CollectiveOp {
        CollectiveOp {
            element: T::spec_element(),
            dtype: T::spec_dispatch_dtype(),
            body: CollectiveBody::Recv {
                data: self.data.spec_erased(),
                peer: self.peer,
            },
            reply: self.reply,
        }
    }

    fn op(&self) -> (op: CollectiveOp) {
        CollectiveOp {
            element: T::element(),
            dtype: T::dispatch_dtype(),
            body: CollectiveBody::Recv {
                data: self.data.erased(),
                peer: self.peer,
            },
            reply: self.reply,
        }
    }
}

/// A buffer with another live handle is never taken as one that a collective
/// writes.
pub proof fn law_shared_is_no_write_target(
    send: GpuRef<()>,
    recv: GpuRef<()>,
    refusal: Seq<char>,
    m: MemoryView,
)
    requires
        1 <= m.buffer(recv.buffer).owners < usize::MAX,
    ensures
        writable(recv, refusal, m.retained(recv.buffer)) is Err,
        read_then_write(send, recv, refusal, m.retained(recv.buffer)) is Err,
{
}

/// A reduction over all the ranks is one call, in place, on the caller's tensor
/// and with the caller's operator. It is made exactly when the tensor is valid and
/// nobody else holds it.
pub proof fn law_all_reduce_reduces_in_place<T: NcclReduceSupported>(
    req: AllReduceRequest<T>,
    world_size: usize,
    m: MemoryView,
)
    ensures
        req.spec_op().element == T::spec_element(),
        req.spec_op().dtype == T::spec_dispatch_dtype(),
        req.spec_op().reply == req.reply,
        match req.spec_op().body.plan(world_size, m) {
            Ok((steps, ending)) => {
                &&& req.tensor.validity(m) is Ok && m.buffer(req.tensor.buffer).owners == 1
                &&& ending is None
                &&& steps == seq![
                    CollStep::AllReduceInPlace { buf: req.tensor.slice, op: req.op },
                ]
            },
            Err(e) => if req.tensor.validity(m) is Ok {
                &&& m.buffer(req.tensor.buffer).owners != 1
                &&& e == ErrorView::Unrecoverable("AllReduce tensor has multiple live references"@)
            } else {
                req.tensor.validity(m) matches Err(stale) && e == stale
            },
        },
{
}

/// A broadcast is one call, in place, on the caller's buffer and from the caller's
/// root. It is made exactly when the buffer is valid, nobody else holds it and the
/// library can name the root.
pub proof fn law_broadcast_starts_at_the_root<T: NcclReduceSupported>(
    req: BroadcastRequest<T>,
    world_size: usize,
    m: MemoryView,
)
    ensures
        req.spec_op().element == T::spec_element(),
        req.spec_op().dtype == T::spec_dispatch_dtype(),
        req.spec_op().reply == req.reply,
        match req.spec_op().body.plan(world_size, m) {
            Ok((steps, ending)) => {
                &&& req.data.validity(m) is Ok && m.buffer(req.data.buffer).owners == 1
                &&& ending is None
                &&& steps.len() == 1
                &&& steps[0] matches CollStep::BroadcastInPlace { buf, root } && buf
                    == req.data.slice && root as int == req.root as int
            },
            Err(e) => {
                &&& req.data.validity(m) is Err || m.buffer(req.data.buffer).owners != 1 || req.root
                    > i32::MAX
                &&& req.data.validity(m) matches Err(stale) ==> e == stale
                &&& req.data.validity(m) is Ok && m.buffer(req.data.buffer).owners != 1 ==> e
                    == ErrorView::Unrecoverable("Broadcast data has multiple live references"@)
                &&& req.data.validity(m) is Ok && m.buffer(req.data.buffer).owners == 1 ==> e
                    == ErrorView::Unrecoverable(
                    "Broadcast: root "@ + text::decimal(req.root as nat)
                        + " does not fit in i32"@,
                )
            },
        },
{
}

/// A gather is one call from the caller's send buffer to the caller's receive
/// buffer. It is made exactly when both are valid and nobody else holds the
/// receive buffer.
pub proof fn law_all_gather_goes_from_send_to_recv<T: NcclReduceSupported>(
    req: AllGatherRequest<T>,
    world_size: usize,
    m: MemoryView,
)
    ensures
        req.spec_op().element == T::spec_element(),
        req.spec_op().dtype == T::spec_dispatch_dtype(),
        req.spec_op().reply == req.reply,
        match req.spec_op().body.plan(world_size, m) {
            Ok((steps, ending)) => {
                &&& req.send.validity(m) is Ok && req.recv.validity(m) is Ok && m.buffer(
                    req.recv.buffer,
                ).owners == 1
                &&& ending is None
                &&& steps == seq![
                    CollStep::AllGather { send: req.send.slice, recv: req.recv.slice },
                ]
            },
            Err(e) => {
                &&& req.send.validity(m) matches Err(stale) ==> e == stale
                &&& req.send.validity(m) is Ok ==> (req.recv.validity(m) matches Err(stale) ==> e
                    == stale)
                &&& req.send.validity(m) is Ok && req.recv.validity(m) is Ok ==> m.buffer(
                    req.recv.buffer,
                ).owners != 1 && e == ErrorView::Unrecoverable(
                    "AllGather recv buffer has multiple live references"@,
                )
            },
        },
{
}

/// A scattered reduction is one call from the caller's send buffer to the caller's
/// receive buffer, with the caller's operator. It is made exactly when both are
/// valid and nobody else holds the receive buffer.
pub proof fn law_reduce_scatter_goes_from_send_to_recv<T: NcclReduceSupported>(
    req: ReduceScatterRequest<T>,
    world_size: usize,
    m: MemoryView,
)
    ensures
        req.spec_op().element == T::spec_element(),
        req.spec_op().dtype == T::spec_dispatch_dtype(),
        req.spec_op().reply == req.reply,
        match req.spec_op().body.plan(world_size, m) {
            Ok((steps, ending)) => {
                &&& req.send.validity(m) is Ok && req.recv.validity(m) is Ok && m.buffer(
                    req.recv.buffer,
                ).owners == 1
                &&& ending is None
                &&& steps == seq![
                    CollStep::ReduceScatter {
                        send: req.send.slice,
                        recv: req.recv.slice,
                        op: req.op,
                    },
                ]
            },
            Err(e) => {
                &&& req.send.validity(m) matches Err(stale) ==> e == stale
                &&& req.send.validity(m) is Ok ==> (req.recv.validity(m) matches Err(stale) ==> e
                    == stale)
                &&& req.send.validity(m) is Ok && req.recv.validity(m) is Ok ==> m.buffer(
                    req.recv.buffer,
                ).owners != 1 && e == ErrorView::Unrecoverable(
                    "ReduceScatter recv buffer has multiple live references"@,
                )
            },
        },
{
}

/// A reduction to one rank is one call from the caller's send buffer to the
/// caller's receive buffer, where the caller gave one, with the caller's operator
/// and root.
pub proof fn law_reduce_goes_to_the_root<T: NcclReduceSupported>(
    req: ReduceRequest<T>,
    world_size: usize,
    m: MemoryView,
)
    ensures
        req.spec_op().element == T::spec_element(),
        req.spec_op().dtype == T::spec_dispatch_dtype(),
        req.spec_op().reply == req.reply,
        match req.spec_op().body.plan(world_size, m) {
            Ok((steps, ending)) => {
                &&& req.send.validity(m) is Ok
                &&& ending is None
                &&& match req.recv {
                    None => steps == seq![
                        CollStep::Reduce {
                            send: req.send.slice,
                            recv: None,
                            op: req.op,
                            root: req.root,
                        },
                    ],
                    Some(recv) => {
                        &&& recv.validity(m) is Ok && m.buffer(recv.buffer).owners == 1
                        &&& steps == seq![
                            CollStep::Reduce {
                                send: req.send.slice,
                                recv: Some(recv.slice),
                                op: req.op,
                                root: req.root,
                            },
                        ]
                    },
                }
            },
            Err(e) => {
                &&& req.send.validity(m) matches Err(stale) ==> e == stale
                &&& req.send.validity(m) is Ok ==> {
                    &&& req.recv is Some
                    &&& req.recv->0.validity(m) matches Err(stale) ==> e == stale
                    &&& req.recv->0.validity(m) is Ok ==> m.buffer(req.recv->0.buffer).owners != 1
                        && e == ErrorView::Unrecoverable(
                        "Reduce recv buffer has multiple live references"@,
                    )
                }
            },
        },
{
}

/// A send is one call that sends the whole buffer to the caller's peer. It is made
/// exactly when the buffer is valid: other handles of it do not matter.
pub proof fn law_send_reaches_its_peer<T: NcclReduceSupported>(
    req: SendRequest<T>,
    world_size: usize,
    m: MemoryView,
)
    ensures
        req.spec_op().element == T::spec_element(),
        req.spec_op().dtype == T::spec_dispatch_dtype(),
        req.spec_op().reply == req.reply,
        match req.spec_op().body.plan(world_size, m) {
            Ok((steps, ending)) => {
                &&& req.data.validity(m) is Ok
                &&& ending is None
                &&& steps.len() == 1
                &&& steps[0] matches CollStep::Send { span, rank, scope, .. } && {
                    &&& span.ptr == req.data.slice.ptr
                    &&& span.offset == 0
                    &&& span.len == req.data.slice.len
                    &&& rank == req.peer
                    &&& scope == PeerScope::Single
                }
            },
            Err(e) => req.data.validity(m) matches Err(stale) && e == stale,
        },
{
}

/// A receive is one call that fills the whole buffer from the caller's peer. It is
/// made exactly when the buffer is valid and nobody else holds it.
pub proof fn law_recv_comes_from_its_peer<T: NcclReduceSupported>(
    req: RecvRequest<T>,
    world_size: usize,
    m: MemoryView,
)
    ensures
        req.spec_op().element == T::spec_element(),
        req.spec_op().dtype == T::spec_dispatch_dtype(),
        req.spec_op().reply == req.reply,
        match req.spec_op().body.plan(world_size, m) {
            Ok((steps, ending)) => {
                &&& req.data.validity(m) is Ok && m.buffer(req.data.buffer).owners == 1
                &&& ending is None
                &&& steps.len() == 1
                &&& steps[0] matches CollStep::Recv { span, rank, scope, .. } && {
                    &&& span.ptr == req.data.slice.ptr
                    &&& span.offset == 0
                    &&& span.len == req.data.slice.len
                    &&& rank == req.peer
                    &&& scope == PeerScope::Single
                }
            },
            Err(e) => if req.data.validity(m) is Ok {
                &&& m.buffer(req.data.buffer).owners != 1
                &&& e == ErrorView::Unrecoverable("Recv buffer has multiple live references"@)
            } else {
                req.data.validity(m) matches Err(stale) && e == stale
            },
        },
{
}

/// A request with two buffers is on the device of the first that still has one.
pub proof fn law_device_of_the_first_buffer(
    send: GpuRef<()>,
    recv: GpuRef<()>,
    op: ReduceOp,
    root: i32,
    m: MemoryView,
)
    ensures
        ({
            let expected = if send.spec_device_id(m) is Some {
                send.spec_device_id(m)
            } else {
                recv.spec_device_id(m)
            };
            &&& CollectiveBody::AllGather { send, recv }.spec_device_id(m) == expected
            &&& CollectiveBody::ReduceScatter { send, recv, op }.spec_device_id(m) == expected
            &&& CollectiveBody::Reduce { send, recv: Some(recv), op, root }.spec_device_id(m)
                == expected
            &&& CollectiveBody::Reduce { send, recv: None, op, root }.spec_device_id(m)
                == send.spec_device_id(m)
            &&& CollectiveBody::Send { data: send, peer: root }.spec_device_id(m)
                == send.spec_device_id(m)
            &&& CollectiveBody::Recv { data: recv, peer: root }.spec_device_id(m)
                == recv.spec_device_id(m)
            &&& CollectiveBody::AllReduce { tensor: recv, op }.spec_device_id(m)
                == recv.spec_device_id(m)
        }),
{
}

} // verus!
