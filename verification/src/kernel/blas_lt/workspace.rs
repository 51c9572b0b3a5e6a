//! Pool of cuBLASLt workspace slabs.
//!
//! Slabs are grouped by size class, the least power of two that holds the
//! request and is no smaller than 1 KiB. A slab that comes back is kept for
//! the next request of its class, up to a bound per class.

use vstd::arithmetic::power2::*;
use vstd::prelude::*;
use vstd::string::*;

use crate::error::{ErrorView, GpuError};
use crate::error;
use crate::text::{join3, unsigned_text};
use crate::text;

verus! {

/// Slabs kept per size class where nothing else is asked for.
pub const DEFAULT_POOL_CAPACITY_PER_CLASS: usize = 4;

/// `from` doubled until it holds `bytes`.
pub open spec fn doubled_to(bytes: nat, from: nat) -> nat
    decreases
        (if from < bytes {
            bytes - from
        } else {
            0
        }),
{
    if from >= bytes || from == 0 {
        from
    } else {
        doubled_to(bytes, 2 * from)
    }
}

/// The size class of a request.
pub open spec fn spec_size_class(bytes: nat) -> nat {
    doubled_to(bytes, 1024)
}

proof fn lemma_doubled_at_least(bytes: nat, from: nat)
    requires
        from > 0,
    ensures
        doubled_to(bytes, from) >= from,
        doubled_to(bytes, from) >= bytes,
    decreases
        (if from < bytes {
            bytes - from
        } else {
            0
        }),
{
    if from < bytes {
        lemma_doubled_at_least(bytes, 2 * from);
    }
}

/// Round a workspace request up to its size class.
pub fn size_class(bytes: usize) -> (c: usize)
    requires
        spec_size_class(bytes as nat) <= usize::MAX,
    ensures
        c == spec_size_class(bytes as nat),
        c >= bytes,
        c >= 1024,
{
    let mut c: usize = 1024;
    while c < bytes
        invariant
            c >= 1024,
            doubled_to(bytes as nat, c as nat) == spec_size_class(bytes as nat),
            spec_size_class(bytes as nat) <= usize::MAX,
        decreases
            (if c < bytes {
                bytes - c
            } else {
                0
            }),
    {
        proof {
            lemma_doubled_at_least(bytes as nat, 2 * c as nat);
        }
        c = c * 2;
    }
    c
}

/// A device allocation kept for workspaces.
#[derive(Debug, Clone, Copy, PartialEq, Eq, Structural)]
pub struct Slab {
    pub handle: u64,
    pub bytes: usize,
}

/// Number of slabs of a class.
pub open spec fn count_of(slabs: Seq<Slab>, class: usize) -> nat
    decreases slabs.len(),
{
    if slabs.len() == 0 {
        0
    } else {
        count_of(slabs.drop_last(), class) + if slabs.last().bytes == class {
            1nat
        } else {
            0nat
        }
    }
}

/// Bytes of all the slabs together.
pub open spec fn total_bytes(slabs: Seq<Slab>) -> nat
    decreases slabs.len(),
{
    if slabs.len() == 0 {
        0
    } else {
        total_bytes(slabs.drop_last()) + slabs.last().bytes as nat
    }
}

/// Position of the slab of a class that came back last.
pub open spec fn latest(slabs: Seq<Slab>, class: usize) -> Option<int>
    decreases slabs.len(),
{
    if slabs.len() == 0 {
        None
    } else if slabs.last().bytes == class {
        Some(slabs.len() - 1)
    } else {
        latest(slabs.drop_last(), class)
    }
}

proof fn lemma_latest(slabs: Seq<Slab>, class: usize)
    ensures
        match latest(slabs, class) {
            Some(i) => 0 <= i < slabs.len() && slabs[i].bytes == class && forall|j: int|
                i < j < slabs.len() ==> (#[trigger] slabs[j]).bytes != class,
            None => forall|j: int| 0 <= j < slabs.len() ==> (#[trigger] slabs[j]).bytes != class,
        },
    decreases slabs.len(),
{
    if slabs.len() > 0 {
        lemma_latest(slabs.drop_last(), class);
        if slabs.last().bytes != class {
            assert forall|j: int| 0 <= j < slabs.len() - 1 implies slabs[j]
                == slabs.drop_last()[j] by {}
        }
    }
}

proof fn lemma_removed(slabs: Seq<Slab>, i: int, class: usize)
    requires
        0 <= i < slabs.len(),
    ensures
        total_bytes(slabs) == total_bytes(slabs.remove(i)) + slabs[i].bytes,
        count_of(slabs, class) == count_of(slabs.remove(i), class) + if slabs[i].bytes == class {
            1nat
        } else {
            0nat
        },
    decreases slabs.len(),
{
    if i == slabs.len() - 1 {
        assert(slabs.remove(i) =~= slabs.drop_last());
    } else {
        lemma_removed(slabs.drop_last(), i, class);
        assert(slabs.remove(i).drop_last() =~= slabs.drop_last().remove(i));
        assert(slabs.remove(i).last() == slabs.last());
    }
}

proof fn lemma_latest_iff_count(slabs: Seq<Slab>, class: usize)
    ensures
        latest(slabs, class) is Some <==> count_of(slabs, class) > 0,
    decreases slabs.len(),
{
    if slabs.len() > 0 {
        lemma_latest_iff_count(slabs.drop_last(), class);
    }
}

/// The pool's state: the free slabs in the order in which they came back, the
/// bound per class and the byte count.
#[verifier::ext_equal]
pub struct PoolView {
    pub free: Seq<Slab>,
    pub per_class_capacity: usize,
    pub bytes_pooled: usize,
}

impl PoolView {
    /// No class has more free slabs than the bound.
    pub open spec fn bounded(self) -> bool {
        self.per_class_capacity > 0 && forall|class: usize| #[trigger]
            count_of(self.free, class) <= self.per_class_capacity
    }

    /// The byte count is the sum over the free slabs.
    pub open spec fn accurate(self) -> bool {
        self.bytes_pooled == total_bytes(self.free)
    }

    /// The pool without its slab at `i`.
    pub open spec fn without(self, i: int) -> PoolView {
        PoolView {
            free: self.free.remove(i),
            bytes_pooled: (if self.bytes_pooled >= self.free[i].bytes {
                self.bytes_pooled - self.free[i].bytes
            } else {
                0
            }) as usize,
            ..self
        }
    }

    /// The pool after a slab has come back: it is kept unless its class is
    /// full.
    pub open spec fn returned(self, slab: Slab) -> PoolView {
        if count_of(self.free, slab.bytes) < self.per_class_capacity {
            PoolView {
                free: self.free.push(slab),
                bytes_pooled: (if self.bytes_pooled + slab.bytes <= usize::MAX {
                    self.bytes_pooled + slab.bytes
                } else {
                    usize::MAX as int
                }) as usize,
                ..self
            }
        } else {
            self
        }
    }
}

/// A slab out of the pool. It goes back through [`WorkspacePool::release`].
#[derive(Debug, PartialEq, Eq, Structural)]
pub struct WorkspaceLease {
    pub slab: Slab,
}

impl WorkspaceLease {
    /// The leased allocation.
    pub fn slice(&self) -> (s: &Slab)
        ensures
            *s == self.slab,
    {
        &self.slab
    }

    /// Size class of the leased allocation.
    pub fn size(&self) -> (n: usize)
        ensures
            n == self.slab.bytes,
    {
        self.slab.bytes
    }
}

/// How a workspace request is met: from the pool, or by an allocation of the
/// class.
pub enum Acquired {
    Pooled(WorkspaceLease),
    Allocate { class: usize },
}

/// The workspace pool.
pub struct WorkspacePool {
    free: Vec<Slab>,
    per_class_capacity: usize,
    bytes_pooled: usize,
}

impl WorkspacePool {
    pub closed spec fn view(&self) -> PoolView {
        PoolView {
            free: self.free@,
            per_class_capacity: self.per_class_capacity,
            bytes_pooled: self.bytes_pooled,
        }
    }

    /// Empty pool with the default bound.
    pub fn new() -> (p: WorkspacePool)
        ensures
            p@ == (PoolView {
                free: seq![],
                per_class_capacity: DEFAULT_POOL_CAPACITY_PER_CLASS,
                bytes_pooled: 0,
            }),
            p@.bounded(),
            p@.accurate(),
    {
        WorkspacePool::with_capacity(DEFAULT_POOL_CAPACITY_PER_CLASS)
    }

    /// Empty pool with this bound, at least one.
    pub fn with_capacity(per_class: usize) -> (p: WorkspacePool)
        ensures
            p@ == (PoolView {
                free: seq![],
                per_class_capacity: if per_class == 0 {
                    1
                } else {
                    per_class
                },
                bytes_pooled: 0,
            }),
            p@.bounded(),
            p@.accurate(),
    {
        let cap: usize = if per_class < 1 {
            1
        } else {
            per_class
        };
        WorkspacePool { free: Vec::new(), per_class_capacity: cap, bytes_pooled: 0 }
    }

    /// Meet a request: with the slab of its class that came back last, or by
    /// asking for an allocation.
    pub fn acquire(&mut self, requested_bytes: usize) -> (a: Acquired)
        requires
            spec_size_class(requested_bytes as nat) <= usize::MAX,
        ensures
            match latest(old(self)@.free, spec_size_class(requested_bytes as nat) as usize) {
                Some(i) => a matches Acquired::Pooled(lease) && lease.slab == old(self)@.free[i]
                    && final(self)@ == old(self)@.without(i),
                None => a == (Acquired::Allocate {
                    class: spec_size_class(requested_bytes as nat) as usize,
                }) && final(self)@ == old(self)@,
            },
            a matches Acquired::Pooled(lease) ==> lease.slab.bytes >= requested_bytes,
            a matches Acquired::Allocate { class } ==> class >= requested_bytes,
            old(self)@.bounded() ==> final(self)@.bounded(),
            old(self)@.accurate() ==> final(self)@.accurate(),
    {
        let class = size_class(requested_bytes);
        let mut i: usize = self.free.len();
        assert(self.free@.take(i as int) =~= self.free@);
        while i > 0
            invariant
                i <= self.free.len(),
                *self == *old(self),
                latest(self.free@, class) == latest(self.free@.take(i as int), class),
                class == spec_size_class(requested_bytes as nat),
                class >= requested_bytes,
            decreases i,
        {
            i = i - 1;
            proof {
                let upto = self.free@.take(i + 1);
                assert(upto.last() == self.free@[i as int]);
                assert(upto.drop_last() =~= self.free@.take(i as int));
            }
            if self.free[i].bytes == class {
                proof {
                    lemma_latest(self.free@, class);
                    lemma_removed(self.free@, i as int, class);
                    assert forall|c: usize| #[trigger]
                        count_of(self.free@.remove(i as int), c) <= count_of(self.free@, c) by {
                        lemma_removed(self.free@, i as int, c);
                    }
                }
                let ghost before = self@;
                let slab = self.free.remove(i);
                self.bytes_pooled = self.bytes_pooled.saturating_sub(slab.bytes);
                assert(self@ =~= before.without(i as int));
                assert(before.bounded() ==> self@.bounded()) by {
                    assert forall|c: usize| before.bounded() implies #[trigger]
                        count_of(self@.free, c) <= self@.per_class_capacity by {
                        assert(count_of(before.free, c) <= before.per_class_capacity);
                    }
                }
                return Acquired::Pooled(WorkspaceLease { slab });
            }
            assert(latest(self.free@.take(i + 1), class) == latest(
                self.free@.take(i as int),
                class,
            ));
        }
        assert(self.free@.take(0) =~= Seq::<Slab>::empty());
        Acquired::Allocate { class }
    }

    /// The lease of a fresh allocation of a class, from what the driver gave:
    /// the allocation, or the text of its error.
    pub fn allocated(class: usize, outcome: Result<u64, String>) -> (r: Result<
        WorkspaceLease,
        GpuError,
    >)
        ensures
            error::outcome(r) == match outcome {
                Ok(handle) => Ok(WorkspaceLease { slab: Slab { handle, bytes: class } }),
                Err(e) => Err(
                    ErrorView::OutOfMemory(
                        "cublaslt workspace alloc "@ + text::decimal(class as nat) + "B: "@ + e@,
                    ),
                ),
            },
    {
        match outcome {
            Ok(handle) => Ok(WorkspaceLease { slab: Slab { handle, bytes: class } }),
            Err(e) => {
                let n = unsigned_text(class as u64);
                let mut msg = join3("cublaslt workspace alloc ", n.as_str(), "B: ");
                msg.append(e.as_str());
                Err(GpuError::OutOfMemory(msg))
            },
        }
    }

    fn class_count(&self, class: usize) -> (n: usize)
        ensures
            n == count_of(self.free@, class),
    {
        let mut n: usize = 0;
        let mut i: usize = 0;
        while i < self.free.len()
            invariant
                i <= self.free.len(),
                n <= i,
                n == count_of(self.free@.take(i as int), class),
            decreases self.free.len() - i,
        {
            proof {
                let upto = self.free@.take(i + 1);
                assert(upto.last() == self.free@[i as int]);
                assert(upto.drop_last() =~= self.free@.take(i as int));
            }
            if self.free[i].bytes == class {
                n = n + 1;
            }
            i = i + 1;
        }
        assert(self.free@.take(i as int) =~= self.free@);
        n
    }

    /// A lease ends: its slab is kept for the next request of its class, or
    /// let go where the class is full. The result says whether it was kept.
    pub fn release(&mut self, lease: WorkspaceLease) -> (kept: bool)
        ensures
            final(self)@ == old(self)@.returned(lease.slab),
            kept == (count_of(old(self)@.free, lease.slab.bytes) < old(self)@.per_class_capacity),
            old(self)@.bounded() ==> final(self)@.bounded(),
            old(self)@.accurate() && total_bytes(old(self)@.free) + lease.slab.bytes <= usize::MAX
                ==> final(self)@.accurate(),
    {
        let slab = lease.slab;
        let n = self.class_count(slab.bytes);
        if n < self.per_class_capacity {
            let ghost before = self@;
            self.free.push(slab);
            self.bytes_pooled = self.bytes_pooled.saturating_add(slab.bytes);
            proof {
                assert(self.free@.drop_last() =~= before.free);
                assert(self@ =~= before.returned(slab));
                assert forall|c: usize| before.bounded() implies #[trigger]
                    count_of(self@.free, c) <= self@.per_class_capacity by {
                    assert(count_of(before.free, c) <= before.per_class_capacity);
                }
            }
            true
        } else {
            false
        }
    }

    /// Number of free slabs.
    pub fn pooled_slabs(&self) -> (n: usize)
        ensures
            n == self@.free.len(),
    {
        self.free.len()
    }

    /// Bytes of the free slabs.
    pub fn pooled_bytes(&self) -> (n: usize)
        ensures
            n == self@.bytes_pooled,
    {
        self.bytes_pooled
    }
}

impl Default for WorkspacePool {
    fn default() -> (p: WorkspacePool)
        ensures
            p@ == (PoolView {
                free: seq![],
                per_class_capacity: DEFAULT_POOL_CAPACITY_PER_CLASS,
                bytes_pooled: 0,
            }),
    {
        WorkspacePool::new()
    }
}

proof fn lemma_doubled_is_pow2(bytes: nat, e: nat) -> (f: nat)
    ensures
        f >= e,
        doubled_to(bytes, pow2(e)) == pow2(f),
        f > e ==> pow2((f - 1) as nat) < bytes,
    decreases
        (if pow2(e) < bytes {
            bytes - pow2(e)
        } else {
            0
        }),
{
    lemma_pow2_pos(e);
    if pow2(e) >= bytes {
        e
    } else {
        lemma_pow2_unfold((e + 1) as nat);
        let f = lemma_doubled_is_pow2(bytes, (e + 1) as nat);
        f
    }
}

/// A size class is a power of two, holds the request, is no smaller than 1 KiB,
/// and no smaller power of two does both.
pub proof fn law_size_class_is_least_power(bytes: nat, e: nat)
    ensures
        exists|f: nat| #[trigger] pow2(f) == spec_size_class(bytes),
        spec_size_class(bytes) >= bytes,
        spec_size_class(bytes) >= 1024,
        pow2(e) >= bytes && pow2(e) >= 1024 ==> pow2(e) >= spec_size_class(bytes),
{
    lemma2_to64();
    lemma_doubled_at_least(bytes, 1024);
    let f = lemma_doubled_is_pow2(bytes, 10);
    assert(pow2(f) == spec_size_class(bytes));
    if pow2(e) >= bytes && pow2(e) >= 1024 && pow2(e) < pow2(f) {
        if e >= f {
            if e > f {
                lemma_pow2_strictly_increases(f, e);
            }
        } else {
            if f > 10 {
                if e < f - 1 {
                    lemma_pow2_strictly_increases(e, (f - 1) as nat);
                }
            } else {
                assert(pow2(f) == 1024);
            }
        }
    }
}

/// Rounding is monotone, and rounding a size class changes nothing.
pub proof fn law_size_class_monotone(a: nat, b: nat)
    requires
        a <= b,
    ensures
        spec_size_class(a) <= spec_size_class(b),
        spec_size_class(spec_size_class(a)) == spec_size_class(a),
{
    lemma2_to64();
    let fa = lemma_doubled_is_pow2(a, 10);
    let fb = lemma_doubled_is_pow2(b, 10);
    lemma_doubled_at_least(b, 1024);
    lemma_doubled_at_least(a, 1024);
    law_size_class_is_least_power(a, fb);
    let c = spec_size_class(a);
    law_size_class_is_least_power(c, fa);
    lemma_doubled_at_least(c, 1024);
}

/// A slab that came back and was kept is the one that the next request of its
/// class gets, and the pool is then as it was before.
pub proof fn law_release_then_acquire(p: PoolView, slab: Slab)
    requires
        count_of(p.free, slab.bytes) < p.per_class_capacity,
        p.bytes_pooled + slab.bytes <= usize::MAX,
    ensures
        latest(p.returned(slab).free, slab.bytes) == Some(p.free.len() as int),
        p.returned(slab).free[p.free.len() as int] == slab,
        p.returned(slab).without(p.free.len() as int) == p,
{
    let after = p.returned(slab);
    assert(after.free.last() == slab);
    assert(after.free.remove(p.free.len() as int) =~= p.free);
    assert(after.without(p.free.len() as int) =~= p);
}

/// A class with a free slab never asks for an allocation.
pub proof fn law_pooled_before_allocated(p: PoolView, class: usize)
    ensures
        latest(p.free, class) is Some <==> count_of(p.free, class) > 0,
{
    lemma_latest_iff_count(p.free, class);
}

/// A request gets a slab of its own class, and of those the one that came back
/// last. A class without a free slab has none to give.
pub proof fn law_latest_slab_of_the_class(p: PoolView, class: usize)
    ensures
        match latest(p.free, class) {
            Some(i) => {
                &&& 0 <= i < p.free.len()
                &&& p.free[i].bytes == class
                &&& forall|j: int| i < j < p.free.len() ==> (#[trigger] p.free[j]).bytes != class
            },
            None => forall|j: int|
                0 <= j < p.free.len() ==> (#[trigger] p.free[j]).bytes != class,
        },
{
    lemma_latest(p.free, class);
}

/// A slab that comes back is kept exactly when its class has room, and the others
/// stay as they are. The byte count grows by what is kept and shrinks by what is
/// given out.
pub proof fn law_slabs_are_kept_up_to_the_bound(p: PoolView, slab: Slab, i: int)
    requires
        p.accurate(),
        0 <= i < p.free.len(),
    ensures
        count_of(p.free, slab.bytes) < p.per_class_capacity ==> p.returned(slab).free
            == p.free.push(slab),
        count_of(p.free, slab.bytes) >= p.per_class_capacity ==> p.returned(slab) == p,
        count_of(p.free, slab.bytes) < p.per_class_capacity && p.bytes_pooled + slab.bytes
            <= usize::MAX ==> p.returned(slab).bytes_pooled == p.bytes_pooled + slab.bytes
            && p.returned(slab).accurate(),
        p.without(i).free == p.free.remove(i),
        p.without(i).bytes_pooled == p.bytes_pooled - p.free[i].bytes,
        p.without(i).accurate(),
        p.without(i).per_class_capacity == p.per_class_capacity,
        p.returned(slab).per_class_capacity == p.per_class_capacity,
{
    lemma_removed(p.free, i, 0);
    assert(p.free.push(slab).drop_last() =~= p.free);
}

} // verus!
