//! All-to-all exchanges as groups of paired sends and receives.

use vstd::prelude::*;
use vstd::string::*;

use crate::error::{ErrorView, GpuError};
use crate::gpu_ref::{DeviceSlice, GpuRef, MemoryTable, MemoryView};
use crate::kernel::collective::requests;
use crate::kernel::collective::requests::{
    access_read_then_write, CollectiveBody, CollectiveDispatch, CollectiveOp,
};
use crate::kernel::collective::run::{CollStep, CollectiveRun, Overrun, PeerScope, Span};
use crate::kernel::collective::NcclReduceSupported;
use crate::steps::RunView;
use crate::text::{join3, unsigned_text};
use crate::text;

verus! {

/// Exchange of equal shards: `count` elements to and from every rank. Both
/// buffers hold one shard per rank.
pub struct AllToAllRequest<T: NcclReduceSupported> {
    pub send: GpuRef<T>,
    pub recv: GpuRef<T>,
    pub count: usize,
    pub reply: u64,
}

/// Exchange of shards with a count and an offset per rank and direction.
pub struct AllToAllvRequest<T: NcclReduceSupported> {
    pub send: GpuRef<T>,
    pub recv: GpuRef<T>,
    pub send_counts: Vec<usize>,
    pub send_offsets: Vec<usize>,
    pub recv_counts: Vec<usize>,
    pub recv_offsets: Vec<usize>,
    pub reply: u64,
}

/// [`AllToAllRequest`] without its element type.
pub struct AllToAllBody {
    pub send: GpuRef<()>,
    pub recv: GpuRef<()>,
    pub count: usize,
}

/// [`AllToAllvRequest`] without its element type.
pub struct AllToAllvBody {
    pub send: GpuRef<()>,
    pub recv: GpuRef<()>,
    pub send_counts: Vec<usize>,
    pub send_offsets: Vec<usize>,
    pub recv_counts: Vec<usize>,
    pub recv_offsets: Vec<usize>,
}

/// A shard of a buffer.
pub open spec fn shard(buf: DeviceSlice, offset: int, len: int) -> Span {
    Span { ptr: buf.ptr, offset: offset as usize, len: len as usize }
}

/// The calls of an equal exchange with the first `peers` ranks, the group's
/// opening first.
pub open spec fn exchange_steps(
    send: DeviceSlice,
    recv: DeviceSlice,
    count: int,
    peers: nat,
) -> Seq<CollStep>
    decreases peers,
{
    if peers == 0 {
        seq![CollStep::GroupStart]
    } else {
        let peer = (peers - 1) as usize;
        exchange_steps(send, recv, count, (peers - 1) as nat) + seq![
            CollStep::Send {
                span: shard(send, peer * count, count),
                rank: peer as i32,
                peer,
                scope: PeerScope::AllToAll,
            },
            CollStep::Recv {
                span: shard(recv, peer * count, count),
                rank: peer as i32,
                peer,
                scope: PeerScope::AllToAll,
            },
        ]
    }
}

/// The calls of an equal exchange, or why it is refused.
pub open spec fn all_to_all_plan(b: AllToAllBody, world_size: usize, m: MemoryView) -> Result<
    (Seq<CollStep>, Option<Overrun>),
    ErrorView,
> {
    match requests::read_then_write(
        b.send,
        b.recv,
        "AllToAll recv buffer has multiple live references"@,
        m,
    ) {
        Err(e) => Err(e),
        Ok((send, recv)) => if send.len < world_size * b.count || recv.len < world_size
            * b.count {
            Err(
                ErrorView::Unrecoverable(
                    "AllToAll: buffer length < world_size ("@ + text::decimal(world_size as nat)
                        + ") * count ("@ + text::decimal(b.count as nat) + ")"@,
                ),
            )
        } else {
            Ok(
                (
                    exchange_steps(send, recv, b.count as int, world_size as nat).push(
                        CollStep::GroupEnd,
                    ),
                    None,
                ),
            )
        },
    }
}

proof fn lemma_shard_bound(peer: int, world: int, count: int)
    requires
        0 <= peer < world,
        0 <= count,
    ensures
        0 <= peer * count,
        peer * count + count <= world * count,
{
    assert(0 <= peer * count && peer * count + count <= world * count) by (nonlinear_arith)
        requires
            0 <= peer < world,
            0 <= count,
    ;
}

impl AllToAllBody {
    /// Validate the exchange and give its calls.
    pub fn dispatch(&self, world_size: usize, mem: &MemoryTable) -> (r: Result<
        CollectiveRun,
        GpuError,
    >)
        ensures
            match all_to_all_plan(*self, world_size, mem@) {
                Err(e) => r is Err && r->Err_0@ == e,
                Ok((steps, ending)) => r is Ok && r->Ok_0@ == (RunView {
                    steps,
                    done: 0,
                    failed: false,
                }) && r->Ok_0@.wf() && r->Ok_0.spec_ending() == ending,
            },
    {
        let (send, recv) = match access_read_then_write(
            &self.send,
            &self.recv,
            "AllToAll recv buffer has multiple live references",
            mem,
        ) {
            Ok(t) => t,
            Err(e) => {
                return Err(e);
            },
        };
        let short = match world_size.checked_mul(self.count) {
            Some(total) => send.len < total || recv.len < total,
            None => true,
        };
        if short {
            let w = unsigned_text(world_size as u64);
            let c = unsigned_text(self.count as u64);
            let mut msg = join3(
                "AllToAll: buffer length < world_size (",
                w.as_str(),
                ") * count (",
            );
            msg.append(c.as_str());
            msg.append(")");
            return Err(GpuError::Unrecoverable(msg));
        }
        let mut steps: Vec<CollStep> = Vec::new();
        steps.push(CollStep::GroupStart);
        let mut peer: usize = 0;
        assert(steps@ =~= exchange_steps(send, recv, self.count as int, 0));
        while peer < world_size
            invariant
                peer <= world_size,
                world_size * self.count <= usize::MAX,
                steps@ == exchange_steps(send, recv, self.count as int, peer as nat),
            decreases world_size - peer,
        {
            proof {
                lemma_shard_bound(peer as int, world_size as int, self.count as int);
            }
            let offset: usize = peer * self.count;
            steps.push(
                CollStep::Send {
                    span: Span { ptr: send.ptr, offset, len: self.count },
                    rank: peer as i32,
                    peer,
                    scope: PeerScope::AllToAll,
                },
            );
            steps.push(
                CollStep::Recv {
                    span: Span { ptr: recv.ptr, offset, len: self.count },
                    rank: peer as i32,
                    peer,
                    scope: PeerScope::AllToAll,
                },
            );
            peer = peer + 1;
            assert(steps@ =~= exchange_steps(send, recv, self.count as int, peer as nat));
        }
        steps.push(CollStep::GroupEnd);
        Ok(CollectiveRun::new(steps, None))
    }
}

impl AllToAllvBody {
    /// Every list of counts and offsets has one entry per rank.
    pub open spec fn lengths_match(self, world_size: usize) -> bool {
        &&& self.send_counts.len() == world_size
        &&& self.send_offsets.len() == world_size
        &&& self.recv_counts.len() == world_size
        &&& self.recv_offsets.len() == world_size
    }

    /// The calls of the exchange with the first `peers` ranks, the group's
    /// opening first. Empty shards make no call, and the calls end at the
    /// first shard that reaches past its buffer.
    pub open spec fn steps(self, send: DeviceSlice, recv: DeviceSlice, peers: nat) -> (
        Seq<CollStep>,
        Option<Overrun>,
    )
        decreases peers,
    {
        if peers == 0 {
            (seq![CollStep::GroupStart], None)
        } else {
            let (before, over) = self.steps(send, recv, (peers - 1) as nat);
            let peer = (peers - 1) as usize;
            let i = peers - 1;
            if over is Some {
                (before, over)
            } else if self.send_counts[i] > 0 && self.send_offsets[i] + self.send_counts[i]
                > send.len {
                (before, Some(Overrun::Send { peer }))
            } else {
                let sent = if self.send_counts[i] > 0 {
                    before.push(
                        CollStep::Send {
                            span: shard(
                                send,
                                self.send_offsets[i] as int,
                                self.send_counts[i] as int,
                            ),
                            rank: peer as i32,
                            peer,
                            scope: PeerScope::AllToAllv,
                        },
                    )
                } else {
                    before
                };
                if self.recv_counts[i] > 0 && self.recv_offsets[i] + self.recv_counts[i]
                    > recv.len {
                    (sent, Some(Overrun::Recv { peer }))
                } else if self.recv_counts[i] > 0 {
                    (
                        sent.push(
                            CollStep::Recv {
                                span: shard(
                                    recv,
                                    self.recv_offsets[i] as int,
                                    self.recv_counts[i] as int,
                                ),
                                rank: peer as i32,
                                peer,
                                scope: PeerScope::AllToAllv,
                            },
                        ),
                        None,
                    )
                } else {
                    (sent, None)
                }
            }
        }
    }

    /// Validate the exchange and give its calls.
    pub fn dispatch(&self, world_size: usize, mem: &MemoryTable) -> (r: Result<
        CollectiveRun,
        GpuError,
    >)
        ensures
            match all_to_allv_plan(*self, world_size, mem@) {
                Err(e) => r is Err && r->Err_0@ == e,
                Ok((steps, ending)) => r is Ok && r->Ok_0@ == (RunView {
                    steps,
                    done: 0,
                    failed: false,
                }) && r->Ok_0@.wf() && r->Ok_0.spec_ending() == ending,
            },
    {
        if self.send_counts.len() != world_size || self.send_offsets.len() != world_size
            || self.recv_counts.len() != world_size || self.recv_offsets.len() != world_size {
            let w = unsigned_text(world_size as u64);
            return Err(
                GpuError::Unrecoverable(
                    join3(
                        "AllToAllv: counts/offsets must each have length world_size (",
                        w.as_str(),
                        ")",
                    ),
                ),
            );
        }
        let (send, recv) = match access_read_then_write(
            &self.send,
            &self.recv,
            "AllToAllv recv buffer has multiple live references",
            mem,
        ) {
            Ok(t) => t,
            Err(e) => {
                return Err(e);
            },
        };
        let mut steps: Vec<CollStep> = Vec::new();
        steps.push(CollStep::GroupStart);
        assert(steps@ =~= self.steps(send, recv, 0).0);
        let mut peer: usize = 0;
        while peer < world_size
            invariant
                peer <= world_size,
                self.lengths_match(world_size),
                all_to_allv_plan(*self, world_size, mem@) == self.closed_steps(send, recv, world_size),
                (steps@, None::<Overrun>) == self.steps(send, recv, peer as nat),
            decreases world_size - peer,
        {
            let s_off: usize = self.send_offsets[peer];
            let s_cnt: usize = self.send_counts[peer];
            let r_off: usize = self.recv_offsets[peer];
            let r_cnt: usize = self.recv_counts[peer];
            if s_cnt > 0 {
                if s_cnt > send.len || s_off > send.len - s_cnt {
                    proof {
                        self.lemma_overrun_stays(send, recv, (peer + 1) as nat, world_size as nat);
                    }
                    return Ok(CollectiveRun::new(steps, Some(Overrun::Send { peer })));
                }
                steps.push(
                    CollStep::Send {
                        span: Span { ptr: send.ptr, offset: s_off, len: s_cnt },
                        rank: peer as i32,
                        peer,
                        scope: PeerScope::AllToAllv,
                    },
                );
            }
            if r_cnt > 0 {
                if r_cnt > recv.len || r_off > recv.len - r_cnt {
                    proof {
                        self.lemma_overrun_stays(send, recv, (peer + 1) as nat, world_size as nat);
                    }
                    return Ok(CollectiveRun::new(steps, Some(Overrun::Recv { peer })));
                }
                steps.push(
                    CollStep::Recv {
                        span: Span { ptr: recv.ptr, offset: r_off, len: r_cnt },
                        rank: peer as i32,
                        peer,
                        scope: PeerScope::AllToAllv,
                    },
                );
            }
            peer = peer + 1;
            assert(steps@ =~= self.steps(send, recv, peer as nat).0);
        }
        steps.push(CollStep::GroupEnd);
        Ok(CollectiveRun::new(steps, None))
    }

    proof fn lemma_overrun_stays(self, send: DeviceSlice, recv: DeviceSlice, from: nat, to: nat)
        requires
            from <= to,
            self.steps(send, recv, from).1 is Some,
        ensures
            self.steps(send, recv, to) == self.steps(send, recv, from),
        decreases to,
    {
        if from < to {
            self.lemma_overrun_stays(send, recv, from, (to - 1) as nat);
        }
    }

    /// The calls of the whole exchange: the group is closed unless a shard
    /// overran its buffer.
    pub open spec fn closed_steps(
        self,
        send: DeviceSlice,
        recv: DeviceSlice,
        world_size: usize,
    ) -> Result<(Seq<CollStep>, Option<Overrun>), ErrorView> {
        let (steps, over) = self.steps(send, recv, world_size as nat);
        Ok(
            (
                if over is None {
                    steps.push(CollStep::GroupEnd)
                } else {
                    steps
                },
                over,
            ),
        )
    }
}

/// The calls of an exchange of unequal shards, or why it is refused.
pub open spec fn all_to_allv_plan(b: AllToAllvBody, world_size: usize, m: MemoryView) -> Result<
    (Seq<CollStep>, Option<Overrun>),
    ErrorView,
> {
    if !b.lengths_match(world_size) {
        Err(
            ErrorView::Unrecoverable(
                "AllToAllv: counts/offsets must each have length world_size ("@ + text::decimal(
                    world_size as nat,
                ) + ")"@,
            ),
        )
    } else {
        match requests::read_then_write(
            b.send,
            b.recv,
            "AllToAllv recv buffer has multiple live references"@,
            m,
        ) {
            Err(e) => Err(e),
            Ok((send, recv)) => b.closed_steps(send, recv, world_size),
        }
    }
}

impl<T: NcclReduceSupported> CollectiveDispatch for AllToAllRequest<T> {
    open spec fn spec_op(&self) -> CollectiveOp {
        CollectiveOp {
            element: T::spec_element(),
            dtype: T::spec_dispatch_dtype(),
            body: CollectiveBody::AllToAll(
                AllToAllBody {
                    send: self.send.spec_erased(),
                    recv: self.recv.spec_erased(),
                    count: self.count,
                },
            ),
            reply: self.reply,
        }
    }

    fn op(&self) -> (op: CollectiveOp) {
        CollectiveOp {
            element: T::element(),
            dtype: T::dispatch_dtype(),
            body: CollectiveBody::AllToAll(
                AllToAllBody {
                    send: self.send.erased(),
                    recv: self.recv.erased(),
                    count: self.count,
                },
            ),
            reply: self.reply,
        }
    }
}

impl<T: NcclReduceSupported> AllToAllvRequest<T> {
    /// The erased form of the request.
    pub fn into_op(self) -> (op: CollectiveOp)
        ensures
            op.element == T::spec_element(),
            op.dtype == T::spec_dispatch_dtype(),
            op.reply == self.reply,
            op.body == CollectiveBody::AllToAllv(
                AllToAllvBody {
                    send: self.send.spec_erased(),
                    recv: self.recv.spec_erased(),
                    send_counts: self.send_counts,
                    send_offsets: self.send_offsets,
                    recv_counts: self.recv_counts,
                    recv_offsets: self.recv_offsets,
                },
            ),
    {
        CollectiveOp {
            element: T::element(),
            dtype: T::dispatch_dtype(),
            body: CollectiveBody::AllToAllv(
                AllToAllvBody {
                    send: self.send.erased(),
                    recv: self.recv.erased(),
                    send_counts: self.send_counts,
                    send_offsets: self.send_offsets,
                    recv_counts: self.recv_counts,
                    recv_offsets: self.recv_offsets,
                },
            ),
            reply: self.reply,
        }
    }
}

/// The span of a point-to-point call lies inside the buffer it was cut from.
pub open spec fn in_bounds(step: CollStep, send: DeviceSlice, recv: DeviceSlice) -> bool {
    match step {
        CollStep::Send { span, .. } => span.ptr == send.ptr && span.offset + span.len <= send.len,
        CollStep::Recv { span, .. } => span.ptr == recv.ptr && span.offset + span.len <= recv.len,
        _ => true,
    }
}

proof fn lemma_exchange_steps(
    send: DeviceSlice,
    recv: DeviceSlice,
    count: int,
    world: nat,
    peers: nat,
)
    requires
        0 <= count,
        peers <= world,
        world <= usize::MAX,
        world * count <= send.len,
        world * count <= recv.len,
    ensures
        exchange_steps(send, recv, count, peers).len() == 1 + 2 * peers,
        exchange_steps(send, recv, count, peers)[0] == CollStep::GroupStart,
        forall|i: int|
            0 <= i < exchange_steps(send, recv, count, peers).len() ==> in_bounds(
                #[trigger] exchange_steps(send, recv, count, peers)[i],
                send,
                recv,
            ),
        forall|p: int|
            0 <= p < peers ==> {
                &&& (#[trigger] exchange_steps(send, recv, count, peers)[1 + 2 * p]) matches
                    CollStep::Send { peer, span, .. } && peer == p && span.offset == p * count
                    && span.len == count
                &&& exchange_steps(send, recv, count, peers)[2 + 2 * p] matches CollStep::Recv {
                    peer,
                    span,
                    ..
                } && peer == p && span.offset == p * count && span.len == count
            },
    decreases peers,
{
    if peers > 0 {
        lemma_exchange_steps(send, recv, count, world, (peers - 1) as nat);
        let p = peers - 1;
        lemma_shard_bound(p, world as int, count);
        assert(count <= world * count) by (nonlinear_arith)
            requires
                0 < world,
                0 <= count,
        ;
        let before = exchange_steps(send, recv, count, (peers - 1) as nat);
        let after = exchange_steps(send, recv, count, peers);
        assert forall|i: int| 0 <= i < before.len() implies after[i] == before[i] by {}
        assert forall|i: int| 0 <= i < after.len() implies in_bounds(
            #[trigger] after[i],
            send,
            recv,
        ) by {
            if i < before.len() {
                assert(in_bounds(before[i], send, recv));
            }
        }
        assert forall|q: int| 0 <= q < peers implies {
            &&& (#[trigger] after[1 + 2 * q]) matches CollStep::Send { peer, span, .. } && peer == q
                && span.offset == q * count && span.len == count
            &&& after[2 + 2 * q] matches CollStep::Recv { peer, span, .. } && peer == q
                && span.offset == q * count && span.len == count
        } by {
            if q < peers - 1 {
                assert(after[1 + 2 * q] == before[1 + 2 * q]);
                assert(after[2 + 2 * q] == before[2 + 2 * q]);
            }
        }
    }
}

/// An equal exchange makes one send to and one receive from every rank, each of
/// the rank's own shard and none past the end of its buffer, and its group is
/// opened first and closed last.
pub proof fn law_exchange_stays_in_bounds(b: AllToAllBody, world_size: usize, m: MemoryView)
    ensures
        all_to_all_plan(b, world_size, m) matches Ok((steps, ending)) ==> {
            &&& ending is None
            &&& steps.len() == 2 + 2 * world_size
            &&& steps[0] == CollStep::GroupStart
            &&& steps.last() == CollStep::GroupEnd
            &&& forall|i: int|
                0 <= i < steps.len() ==> in_bounds(#[trigger] steps[i], b.send.slice, b.recv.slice)
            &&& forall|p: int|
                0 <= p < world_size ==> {
                    &&& (#[trigger] steps[1 + 2 * p]) matches CollStep::Send { peer, span, .. }
                        && peer == p && span.offset == p * b.count && span.len == b.count
                    &&& steps[2 + 2 * p] matches CollStep::Recv { peer, span, .. } && peer == p
                        && span.offset == p * b.count && span.len == b.count
                }
        },
{
    if let Ok((steps, ending)) = all_to_all_plan(b, world_size, m) {
        let n = world_size as nat;
        let count = b.count as int;
        lemma_exchange_steps(b.send.slice, b.recv.slice, count, n, n);
        let inner = exchange_steps(b.send.slice, b.recv.slice, count, n);
        assert(steps == inner.push(CollStep::GroupEnd));
        assert forall|i: int| 0 <= i < steps.len() implies in_bounds(
            #[trigger] steps[i],
            b.send.slice,
            b.recv.slice,
        ) by {
            if i < inner.len() {
                assert(steps[i] == inner[i]);
            }
        }
        assert forall|p: int| 0 <= p < world_size implies {
            &&& (#[trigger] steps[1 + 2 * p]) matches CollStep::Send { peer, span, .. } && peer == p
                && span.offset == p * b.count && span.len == b.count
            &&& steps[2 + 2 * p] matches CollStep::Recv { peer, span, .. } && peer == p
                && span.offset == p * b.count && span.len == b.count
        } by {
            assert(steps[1 + 2 * p] == inner[1 + 2 * p]);
            assert(steps[2 + 2 * p] == inner[2 + 2 * p]);
        }
    }
}

proof fn lemma_unequal_steps(b: AllToAllvBody, send: DeviceSlice, recv: DeviceSlice, peers: nat)
    requires
        peers <= b.send_counts.len(),
        peers <= b.send_offsets.len(),
        peers <= b.recv_counts.len(),
        peers <= b.recv_offsets.len(),
    ensures
        b.steps(send, recv, peers).0.len() >= 1,
        b.steps(send, recv, peers).0[0] == CollStep::GroupStart,
        forall|i: int|
            0 <= i < b.steps(send, recv, peers).0.len() ==> {
                &&& in_bounds(#[trigger] b.steps(send, recv, peers).0[i], send, recv)
                &&& b.steps(send, recv, peers).0[i] != CollStep::GroupEnd
                &&& moves_something(b.steps(send, recv, peers).0[i])
            },
    decreases peers,
{
    if peers > 0 {
        lemma_unequal_steps(b, send, recv, (peers - 1) as nat);
    }
}

/// A point-to-point call moves at least one element.
pub open spec fn moves_something(step: CollStep) -> bool {
    match step {
        CollStep::Send { span, .. } => span.len > 0,
        CollStep::Recv { span, .. } => span.len > 0,
        _ => true,
    }
}

/// No call of an exchange of unequal shards reaches past its buffers, no call
/// moves an empty shard, and the group is opened first.
pub proof fn law_unequal_exchange_stays_in_bounds(b: AllToAllvBody, world_size: usize, m: MemoryView)
    ensures
        all_to_allv_plan(b, world_size, m) matches Ok((steps, _)) ==> {
            &&& steps.len() >= 1
            &&& steps[0] == CollStep::GroupStart
            &&& forall|i: int|
                0 <= i < steps.len() ==> in_bounds(#[trigger] steps[i], b.send.slice, b.recv.slice)
                    && moves_something(steps[i])
        },
{
    if let Ok((steps, ending)) = all_to_allv_plan(b, world_size, m) {
        let (send, recv) = (b.send.slice, b.recv.slice);
        lemma_unequal_steps(b, send, recv, world_size as nat);
        let inner = b.steps(send, recv, world_size as nat).0;
        assert forall|i: int| 0 <= i < steps.len() implies in_bounds(#[trigger] steps[i], send, recv)
            && moves_something(steps[i]) by {
            if i < inner.len() {
                assert(steps[i] == inner[i]);
            }
        }
        assert(steps[0] == inner[0]);
    }
}

/// An exchange of unequal shards closes its group exactly when no shard
/// reaches past its buffer.
pub proof fn law_group_closed_unless_overrun(b: AllToAllvBody, world_size: usize, m: MemoryView)
    ensures
        all_to_allv_plan(b, world_size, m) matches Ok((steps, ending)) ==> (steps.last()
            == CollStep::GroupEnd <==> ending is None),
{
    if let Ok((steps, ending)) = all_to_allv_plan(b, world_size, m) {
        lemma_unequal_steps(b, b.send.slice, b.recv.slice, world_size as nat);
    }
}

/// The call sends to this rank.
pub open spec fn sends_to(step: CollStep, p: int) -> bool {
    step matches CollStep::Send { peer, .. } && peer == p
}

/// The call receives from this rank.
pub open spec fn receives_from(step: CollStep, p: int) -> bool {
    step matches CollStep::Recv { peer, .. } && peer == p
}

/// The ranks before this one are served in full: all of them, unless a shard
/// overran its buffer.
pub open spec fn served(ending: Option<Overrun>, world: int) -> int {
    match ending {
        None => world,
        Some(Overrun::Send { peer }) => peer as int,
        Some(Overrun::Recv { peer }) => peer as int,
    }
}

/// A point-to-point call carries the shard that the lists give to its rank, and
/// names that rank to the library.
pub open spec fn carries_own_shard(b: AllToAllvBody, step: CollStep, peers: int) -> bool {
    match step {
        CollStep::Send { span, rank, peer, scope } => {
            &&& peer < peers
            &&& b.send_counts[peer as int] > 0
            &&& peer <= i32::MAX ==> rank == peer
            &&& span.ptr == b.send.slice.ptr
            &&& span.offset == b.send_offsets[peer as int]
            &&& span.len == b.send_counts[peer as int]
            &&& scope == PeerScope::AllToAllv
        },
        CollStep::Recv { span, rank, peer, scope } => {
            &&& peer < peers
            &&& b.recv_counts[peer as int] > 0
            &&& peer <= i32::MAX ==> rank == peer
            &&& span.ptr == b.recv.slice.ptr
            &&& span.offset == b.recv_offsets[peer as int]
            &&& span.len == b.recv_counts[peer as int]
            &&& scope == PeerScope::AllToAllv
        },
        CollStep::GroupStart => true,
        CollStep::GroupEnd => true,
        _ => false,
    }
}

/// One call of the sequence sends to the rank.
pub open spec fn has_send(steps: Seq<CollStep>, p: int) -> bool {
    exists|i: int| 0 <= i < steps.len() && sends_to(#[trigger] steps[i], p)
}

/// One call of the sequence receives from the rank.
pub open spec fn has_recv(steps: Seq<CollStep>, p: int) -> bool {
    exists|i: int| 0 <= i < steps.len() && receives_from(#[trigger] steps[i], p)
}

/// No rank is sent to twice or received from twice.
pub open spec fn no_call_twice(steps: Seq<CollStep>) -> bool {
    forall|i: int, j: int, p: int|
        #![trigger sends_to(steps[i], p), sends_to(steps[j], p)]
        #![trigger receives_from(steps[i], p), receives_from(steps[j], p)]
        0 <= i < j < steps.len() ==> !(sends_to(steps[i], p) && sends_to(steps[j], p)) && !(
        receives_from(steps[i], p) && receives_from(steps[j], p))
}

proof fn lemma_calls_grow(steps: Seq<CollStep>, more: CollStep, p: int)
    ensures
        has_send(steps, p) ==> has_send(steps.push(more), p),
        has_recv(steps, p) ==> has_recv(steps.push(more), p),
        sends_to(more, p) ==> has_send(steps.push(more), p),
        receives_from(more, p) ==> has_recv(steps.push(more), p),
{
    let grown = steps.push(more);
    assert(grown[steps.len() as int] == more);
    if has_send(steps, p) {
        let i = choose|i: int| 0 <= i < steps.len() && sends_to(#[trigger] steps[i], p);
        assert(grown[i] == steps[i]);
    }
    if has_recv(steps, p) {
        let i = choose|i: int| 0 <= i < steps.len() && receives_from(#[trigger] steps[i], p);
        assert(grown[i] == steps[i]);
    }
}

proof fn lemma_no_call_twice_grows(steps: Seq<CollStep>, more: CollStep)
    requires
        no_call_twice(steps),
        forall|i: int, p: int|
            #![trigger sends_to(steps[i], p)]
            0 <= i < steps.len() && sends_to(steps[i], p) ==> !sends_to(more, p),
        forall|i: int, p: int|
            #![trigger receives_from(steps[i], p)]
            0 <= i < steps.len() && receives_from(steps[i], p) ==> !receives_from(more, p),
    ensures
        no_call_twice(steps.push(more)),
{
    let grown = steps.push(more);
    assert forall|i: int, j: int, p: int|
        #![trigger sends_to(grown[i], p), sends_to(grown[j], p)]
        #![trigger receives_from(grown[i], p), receives_from(grown[j], p)]
        0 <= i < j < grown.len() implies !(sends_to(grown[i], p) && sends_to(grown[j], p)) && !(
    receives_from(grown[i], p) && receives_from(grown[j], p)) by {
        assert(grown[i] == steps[i]);
        assert(sends_to(steps[i], p) == sends_to(grown[i], p));
        assert(receives_from(steps[i], p) == receives_from(grown[i], p));
        if j < steps.len() {
            assert(grown[j] == steps[j]);
            assert(sends_to(steps[j], p) == sends_to(grown[j], p));
            assert(receives_from(steps[j], p) == receives_from(grown[j], p));
        } else {
            assert(grown[j] == more);
        }
    }
}

proof fn lemma_each_shard_once(b: AllToAllvBody, peers: nat)
    requires
        peers <= b.send_counts.len(),
        peers <= b.send_offsets.len(),
        peers <= b.recv_counts.len(),
        peers <= b.recv_offsets.len(),
        b.steps(b.send.slice, b.recv.slice, peers).1 is None,
    ensures
        ({
            let steps = b.steps(b.send.slice, b.recv.slice, peers).0;
            &&& forall|i: int|
                0 <= i < steps.len() ==> carries_own_shard(b, #[trigger] steps[i], peers as int)
            &&& forall|p: int|
                0 <= p < peers && b.send_counts[p] > 0 ==> #[trigger] has_send(steps, p)
            &&& forall|p: int|
                0 <= p < peers && b.recv_counts[p] > 0 ==> #[trigger] has_recv(steps, p)
            &&& no_call_twice(steps)
            &&& forall|p: int|
                0 <= p < peers ==> (#[trigger] b.send_counts[p] > 0 ==> b.send_offsets[p]
                    + b.send_counts[p] <= b.send.slice.len)
            &&& forall|p: int|
                0 <= p < peers ==> (#[trigger] b.recv_counts[p] > 0 ==> b.recv_offsets[p]
                    + b.recv_counts[p] <= b.recv.slice.len)
        }),
    decreases peers,
{
    let (send, recv) = (b.send.slice, b.recv.slice);
    if peers > 0 {
        let last = peers - 1;
        lemma_each_shard_once(b, last as nat);
        let before = b.steps(send, recv, last as nat).0;
        let after = b.steps(send, recv, peers).0;
        let out = CollStep::Send {
            span: shard(send, b.send_offsets[last] as int, b.send_counts[last] as int),
            rank: (last as usize) as i32,
            peer: last as usize,
            scope: PeerScope::AllToAllv,
        };
        let back = CollStep::Recv {
            span: shard(recv, b.recv_offsets[last] as int, b.recv_counts[last] as int),
            rank: (last as usize) as i32,
            peer: last as usize,
            scope: PeerScope::AllToAllv,
        };
        let mid = if b.send_counts[last] > 0 {
            before.push(out)
        } else {
            before
        };
        assert(after == if b.recv_counts[last] > 0 {
            mid.push(back)
        } else {
            mid
        });
        assert forall|i: int| 0 <= i < before.len() implies carries_own_shard(
            b,
            #[trigger] before[i],
            last,
        ) by {}
        if b.send_counts[last] > 0 {
            lemma_no_call_twice_grows(before, out);
        }
        assert forall|i: int| 0 <= i < mid.len() implies carries_own_shard(
            b,
            #[trigger] mid[i],
            peers as int,
        ) && !receives_from(mid[i], last) by {
            if i < before.len() {
                assert(mid[i] == before[i]);
                assert(carries_own_shard(b, before[i], last));
            }
        }
        if b.recv_counts[last] > 0 {
            lemma_no_call_twice_grows(mid, back);
        }
        assert forall|i: int| 0 <= i < after.len() implies carries_own_shard(
            b,
            #[trigger] after[i],
            peers as int,
        ) by {
            if i < mid.len() {
                assert(after[i] == mid[i]);
            }
        }
        assert forall|p: int| 0 <= p < peers && b.send_counts[p] > 0 implies #[trigger] has_send(
            after,
            p,
        ) by {
            if p < last {
                assert(has_send(before, p));
            }
            lemma_calls_grow(before, out, p);
            lemma_calls_grow(mid, back, p);
        }
        assert forall|p: int| 0 <= p < peers && b.recv_counts[p] > 0 implies #[trigger] has_recv(
            after,
            p,
        ) by {
            if p < last {
                assert(has_recv(before, p));
            }
            lemma_calls_grow(before, out, p);
            lemma_calls_grow(mid, back, p);
        }
    }
}

/// An exchange of unequal shards that no shard overruns serves every rank: it
/// sends once to each rank that is owed something and receives once from each
/// rank that owes something, and makes no other call. Every call carries the
/// shard that the lists give to its rank, and names that rank.
pub proof fn law_unequal_exchange_serves_every_rank(
    b: AllToAllvBody,
    world_size: usize,
    m: MemoryView,
)
    ensures
        all_to_allv_plan(b, world_size, m) matches Ok((steps, ending)) ==> ending is None ==> {
            &&& forall|i: int|
                0 <= i < steps.len() ==> match #[trigger] steps[i] {
                    CollStep::Send { span, rank, peer, scope } => {
                        &&& peer < world_size
                        &&& b.send_counts[peer as int] > 0
                        &&& world_size <= i32::MAX ==> rank == peer
                        &&& span.ptr == b.send.slice.ptr
                        &&& span.offset == b.send_offsets[peer as int]
                        &&& span.len == b.send_counts[peer as int]
                        &&& scope == PeerScope::AllToAllv
                    },
                    CollStep::Recv { span, rank, peer, scope } => {
                        &&& peer < world_size
                        &&& b.recv_counts[peer as int] > 0
                        &&& world_size <= i32::MAX ==> rank == peer
                        &&& span.ptr == b.recv.slice.ptr
                        &&& span.offset == b.recv_offsets[peer as int]
                        &&& span.len == b.recv_counts[peer as int]
                        &&& scope == PeerScope::AllToAllv
                    },
                    CollStep::GroupStart => i == 0,
                    CollStep::GroupEnd => i == steps.len() - 1,
                    _ => false,
                }
            &&& forall|p: int|
                0 <= p < world_size && b.send_counts[p] > 0 ==> #[trigger] has_send(steps, p)
            &&& forall|p: int|
                0 <= p < world_size && b.recv_counts[p] > 0 ==> #[trigger] has_recv(steps, p)
            &&& no_call_twice(steps)
        },
{
    if let Ok((steps, ending)) = all_to_allv_plan(b, world_size, m) {
        if ending is None {
            let n = world_size as nat;
            let inner = b.steps(b.send.slice, b.recv.slice, n).0;
            lemma_each_shard_once(b, n);
            lemma_one_opening(b, n);
            assert(steps == inner.push(CollStep::GroupEnd));
            lemma_no_call_twice_grows(inner, CollStep::GroupEnd);
            assert forall|p: int|
                0 <= p < world_size && b.send_counts[p] > 0 implies #[trigger] has_send(
                steps,
                p,
            ) by {
                assert(has_send(inner, p));
                lemma_calls_grow(inner, CollStep::GroupEnd, p);
            }
            assert forall|p: int|
                0 <= p < world_size && b.recv_counts[p] > 0 implies #[trigger] has_recv(
                steps,
                p,
            ) by {
                assert(has_recv(inner, p));
                lemma_calls_grow(inner, CollStep::GroupEnd, p);
            }
            assert forall|i: int| 0 <= i < steps.len() implies carries_own_shard(
                b,
                #[trigger] steps[i],
                n as int,
            ) && (steps[i] == CollStep::GroupStart ==> i == 0) && (steps[i] == CollStep::GroupEnd
                ==> i == steps.len() - 1) by {
                if i < inner.len() {
                    assert(steps[i] == inner[i]);
                    assert(carries_own_shard(b, inner[i], n as int));
                }
            }
        }
    }
}

proof fn lemma_one_opening(b: AllToAllvBody, peers: nat)
    requires
        peers <= b.send_counts.len(),
        peers <= b.send_offsets.len(),
        peers <= b.recv_counts.len(),
        peers <= b.recv_offsets.len(),
    ensures
        ({
            let steps = b.steps(b.send.slice, b.recv.slice, peers).0;
            forall|i: int|
                0 <= i < steps.len() ==> (#[trigger] steps[i] == CollStep::GroupStart ==> i == 0)
                    && steps[i] != CollStep::GroupEnd
        }),
        b.steps(b.send.slice, b.recv.slice, peers).0.len() >= 1,
    decreases peers,
{
    if peers > 0 {
        lemma_one_opening(b, (peers - 1) as nat);
    }
}

proof fn lemma_first_overrun(b: AllToAllvBody, peers: nat)
    requires
        peers <= b.send_counts.len(),
        peers <= b.send_offsets.len(),
        peers <= b.recv_counts.len(),
        peers <= b.recv_offsets.len(),
    ensures
        ({
            let (steps, over) = b.steps(b.send.slice, b.recv.slice, peers);
            let until = served(over, peers as int);
            &&& 0 <= until <= peers
            &&& over is Some ==> until < peers
            &&& forall|p: int|
                0 <= p < until ==> (#[trigger] b.send_counts[p] > 0 ==> b.send_offsets[p]
                    + b.send_counts[p] <= b.send.slice.len)
            &&& forall|p: int|
                0 <= p < until ==> (#[trigger] b.recv_counts[p] > 0 ==> b.recv_offsets[p]
                    + b.recv_counts[p] <= b.recv.slice.len)
            &&& over matches Some(Overrun::Send { peer }) ==> b.send_counts[peer as int] > 0
                && b.send_offsets[peer as int] + b.send_counts[peer as int] > b.send.slice.len
            &&& over matches Some(Overrun::Recv { peer }) ==> b.recv_counts[peer as int] > 0
                && b.recv_offsets[peer as int] + b.recv_counts[peer as int] > b.recv.slice.len && (
            b.send_counts[peer as int] > 0 ==> b.send_offsets[peer as int]
                + b.send_counts[peer as int] <= b.send.slice.len)
            &&& forall|i: int|
                0 <= i < steps.len() ==> carries_own_shard(b, #[trigger] steps[i], peers as int)
        }),
    decreases peers,
{
    if peers > 0 {
        lemma_first_overrun(b, (peers - 1) as nat);
        let (before, over) = b.steps(b.send.slice, b.recv.slice, (peers - 1) as nat);
        let (steps, _) = b.steps(b.send.slice, b.recv.slice, peers);
        assert forall|i: int| 0 <= i < steps.len() implies carries_own_shard(
            b,
            #[trigger] steps[i],
            peers as int,
        ) by {
            if i < before.len() {
                assert(steps[i] == before[i]);
                assert(carries_own_shard(b, before[i], peers - 1));
            }
        }
    }
}

/// An exchange of unequal shards breaks off exactly at the first rank one of
/// whose shards reaches past its buffer, looking at what is sent before what is
/// received, and says which shard it was. The calls made until then carry each
/// rank's own shard.
pub proof fn law_unequal_exchange_stops_at_first_overrun(
    b: AllToAllvBody,
    world_size: usize,
    m: MemoryView,
)
    ensures
        all_to_allv_plan(b, world_size, m) matches Ok((steps, ending)) ==> {
            &&& forall|p: int|
                0 <= p < served(ending, world_size as int) ==> {
                    &&& #[trigger] b.send_counts[p] > 0 ==> b.send_offsets[p] + b.send_counts[p]
                        <= b.send.slice.len
                    &&& b.recv_counts[p] > 0 ==> b.recv_offsets[p] + b.recv_counts[p]
                        <= b.recv.slice.len
                }
            &&& ending matches Some(Overrun::Send { peer }) ==> {
                &&& peer < world_size
                &&& b.send_counts[peer as int] > 0
                &&& b.send_offsets[peer as int] + b.send_counts[peer as int] > b.send.slice.len
            }
            &&& ending matches Some(Overrun::Recv { peer }) ==> {
                &&& peer < world_size
                &&& b.recv_counts[peer as int] > 0
                &&& b.recv_offsets[peer as int] + b.recv_counts[peer as int] > b.recv.slice.len
                &&& b.send_counts[peer as int] > 0 ==> b.send_offsets[peer as int]
                    + b.send_counts[peer as int] <= b.send.slice.len
            }
            &&& forall|i: int|
                0 <= i < steps.len() ==> carries_own_shard(
                    b,
                    #[trigger] steps[i],
                    world_size as int,
                )
        },
{
    if let Ok((steps, ending)) = all_to_allv_plan(b, world_size, m) {
        let n = world_size as nat;
        lemma_first_overrun(b, n);
        let inner = b.steps(b.send.slice, b.recv.slice, n).0;
        assert forall|i: int| 0 <= i < steps.len() implies carries_own_shard(
            b,
            #[trigger] steps[i],
            world_size as int,
        ) by {
            if i < inner.len() {
                assert(steps[i] == inner[i]);
                assert(carries_own_shard(b, inner[i], n as int));
            }
        }
        assert forall|p: int| 0 <= p < served(ending, world_size as int) implies {
            &&& #[trigger] b.send_counts[p] > 0 ==> b.send_offsets[p] + b.send_counts[p]
                <= b.send.slice.len
            &&& b.recv_counts[p] > 0 ==> b.recv_offsets[p] + b.recv_counts[p] <= b.recv.slice.len
        } by {
            let r = b.recv_counts[p];
        }
    }
}

/// An exchange of unequal shards gets as far as its group exactly when each list
/// has one entry per rank, both buffers are valid and nobody else holds the
/// receive buffer.
pub proof fn law_unequal_exchange_accepted_iff(
    b: AllToAllvBody,
    world_size: usize,
    m: MemoryView,
)
    ensures
        all_to_allv_plan(b, world_size, m) is Ok <==> {
            &&& b.send_counts.len() == world_size
            &&& b.send_offsets.len() == world_size
            &&& b.recv_counts.len() == world_size
            &&& b.recv_offsets.len() == world_size
            &&& b.send.validity(m) is Ok
            &&& b.recv.validity(m) is Ok
            &&& m.buffer(b.recv.buffer).owners == 1
        },
{
}

/// An equal exchange is accepted exactly when both buffers are valid, nobody
/// else holds the receive buffer and both hold one shard per rank.
pub proof fn law_exchange_accepted_iff(b: AllToAllBody, world_size: usize, m: MemoryView)
    ensures
        all_to_all_plan(b, world_size, m) is Ok <==> {
            &&& b.send.validity(m) is Ok
            &&& b.recv.validity(m) is Ok
            &&& m.buffer(b.recv.buffer).owners == 1
            &&& world_size * b.count <= b.send.slice.len
            &&& world_size * b.count <= b.recv.slice.len
        },
{
}

proof fn lemma_exchange_ranks(send: DeviceSlice, recv: DeviceSlice, count: int, peers: nat)
    requires
        peers <= usize::MAX,
    ensures
        ({
            let steps = exchange_steps(send, recv, count, peers);
            forall|i: int|
                0 <= i < steps.len() ==> match #[trigger] steps[i] {
                    CollStep::Send { span, rank, peer, scope } => peer < peers && (peer <= i32::MAX
                        ==> rank == peer) && span.ptr == send.ptr && scope == PeerScope::AllToAll,
                    CollStep::Recv { span, rank, peer, scope } => peer < peers && (peer <= i32::MAX
                        ==> rank == peer) && span.ptr == recv.ptr && scope == PeerScope::AllToAll,
                    CollStep::GroupStart => true,
                    _ => false,
                }
        }),
    decreases peers,
{
    if peers > 0 {
        lemma_exchange_ranks(send, recv, count, (peers - 1) as nat);
    }
}

/// Every call of an equal exchange names the rank whose shard it carries, out of
/// the send buffer where it sends and into the receive buffer where it receives.
pub proof fn law_exchange_names_ranks(b: AllToAllBody, world_size: usize, m: MemoryView)
    ensures
        all_to_all_plan(b, world_size, m) matches Ok((steps, _)) ==> forall|i: int|
            0 <= i < steps.len() ==> match #[trigger] steps[i] {
                CollStep::Send { span, rank, peer, scope } => {
                    &&& peer < world_size
                    &&& world_size <= i32::MAX ==> rank == peer
                    &&& span.ptr == b.send.slice.ptr
                    &&& span.offset == peer * b.count
                    &&& span.len == b.count
                    &&& scope == PeerScope::AllToAll
                },
                CollStep::Recv { span, rank, peer, scope } => {
                    &&& peer < world_size
                    &&& world_size <= i32::MAX ==> rank == peer
                    &&& span.ptr == b.recv.slice.ptr
                    &&& span.offset == peer * b.count
                    &&& span.len == b.count
                    &&& scope == PeerScope::AllToAll
                },
                CollStep::GroupStart => i == 0,
                CollStep::GroupEnd => i == steps.len() - 1,
                _ => false,
            },
{
    if let Ok((steps, _)) = all_to_all_plan(b, world_size, m) {
        let n = world_size as nat;
        let inner = exchange_steps(b.send.slice, b.recv.slice, b.count as int, n);
        lemma_exchange_ranks(b.send.slice, b.recv.slice, b.count as int, n);
        law_exchange_stays_in_bounds(b, world_size, m);
        assert(steps == inner.push(CollStep::GroupEnd));
        assert forall|i: int| 0 <= i < steps.len() implies match #[trigger] steps[i] {
            CollStep::Send { span, rank, peer, scope } => {
                &&& peer < world_size
                &&& world_size <= i32::MAX ==> rank == peer
                &&& span.ptr == b.send.slice.ptr
                &&& span.offset == peer * b.count
                &&& span.len == b.count
                &&& scope == PeerScope::AllToAll
            },
            CollStep::Recv { span, rank, peer, scope } => {
                &&& peer < world_size
                &&& world_size <= i32::MAX ==> rank == peer
                &&& span.ptr == b.recv.slice.ptr
                &&& span.offset == peer * b.count
                &&& span.len == b.count
                &&& scope == PeerScope::AllToAll
            },
            CollStep::GroupStart => i == 0,
            CollStep::GroupEnd => i == steps.len() - 1,
            _ => false,
        } by {
            if 0 < i < steps.len() - 1 {
                let p = (i - 1) / 2;
                assert(0 <= p < world_size);
                assert(i == 1 + 2 * p || i == 2 + 2 * p);
                let at = steps[1 + 2 * p];
                assert(steps[i] == inner[i]);
            }
        }
    }
}

/// A request for an exchange reaches the library as the exchange of its own
/// buffers, counts and offsets.
pub proof fn law_exchange_requests_keep_their_operands<T: NcclReduceSupported>(
    equal: AllToAllRequest<T>,
    unequal: AllToAllvRequest<T>,
    op: CollectiveOp,
)
    requires
        call_ensures(AllToAllvRequest::<T>::into_op, (unequal,), op),
    ensures
        equal.spec_op().element == T::spec_element(),
        equal.spec_op().dtype == T::spec_dispatch_dtype(),
        op.dtype == T::spec_dispatch_dtype(),
        equal.spec_op().reply == equal.reply,
        equal.spec_op().body matches CollectiveBody::AllToAll(b) && {
            &&& b.send.slice == equal.send.slice && b.send.buffer == equal.send.buffer
            &&& b.send.device == equal.send.device && b.send.generation == equal.send.generation
            &&& b.recv.slice == equal.recv.slice && b.recv.buffer == equal.recv.buffer
            &&& b.recv.device == equal.recv.device && b.recv.generation == equal.recv.generation
            &&& b.count == equal.count
        },
        op.element == T::spec_element(),
        op.reply == unequal.reply,
        op.body matches CollectiveBody::AllToAllv(b) && {
            &&& b.send.slice == unequal.send.slice && b.send.buffer == unequal.send.buffer
            &&& b.send.device == unequal.send.device && b.send.generation
                == unequal.send.generation
            &&& b.recv.slice == unequal.recv.slice && b.recv.buffer == unequal.recv.buffer
            &&& b.recv.device == unequal.recv.device && b.recv.generation
                == unequal.recv.generation
            &&& b.send_counts == unequal.send_counts && b.send_offsets == unequal.send_offsets
            &&& b.recv_counts == unequal.recv_counts && b.recv_offsets == unequal.recv_offsets
        },
{
}

/// An exchange is refused for the first thing that is wrong. Lists of the wrong
/// length come first, then a stale send or receive buffer, then another holder of
/// the receive buffer, and last a buffer that is too short for equal shards.
pub proof fn law_exchange_refusals(
    equal: AllToAllBody,
    unequal: AllToAllvBody,
    world_size: usize,
    m: MemoryView,
)
    ensures
        all_to_all_plan(equal, world_size, m) matches Err(e) ==> {
            &&& equal.send.validity(m) matches Err(stale) ==> e == stale
            &&& equal.send.validity(m) is Ok ==> (equal.recv.validity(m) matches Err(stale) ==> e
                == stale)
            &&& equal.send.validity(m) is Ok && equal.recv.validity(m) is Ok ==> if m.buffer(
                equal.recv.buffer,
            ).owners != 1 {
                e == ErrorView::Unrecoverable("AllToAll recv buffer has multiple live references"@)
            } else {
                e == ErrorView::Unrecoverable(
                    "AllToAll: buffer length < world_size ("@ + text::decimal(world_size as nat)
                        + ") * count ("@ + text::decimal(equal.count as nat) + ")"@,
                )
            }
        },
        all_to_allv_plan(unequal, world_size, m) matches Err(e) ==> {
            let listed = unequal.send_counts.len() == world_size && unequal.send_offsets.len()
                == world_size && unequal.recv_counts.len() == world_size
                && unequal.recv_offsets.len() == world_size;
            &&& !listed ==> e == ErrorView::Unrecoverable(
                "AllToAllv: counts/offsets must each have length world_size ("@ + text::decimal(
                    world_size as nat,
                ) + ")"@,
            )
            &&& listed ==> (unequal.send.validity(m) matches Err(stale) ==> e == stale)
            &&& listed && unequal.send.validity(m) is Ok ==> (unequal.recv.validity(
                m,
            ) matches Err(stale) ==> e == stale)
            &&& listed && unequal.send.validity(m) is Ok && unequal.recv.validity(m) is Ok ==> e
                == ErrorView::Unrecoverable("AllToAllv recv buffer has multiple live references"@)
        },
{
}

} // verus!
