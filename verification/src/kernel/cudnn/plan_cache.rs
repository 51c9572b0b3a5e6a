//! Cache of execution plans by operation, element type and graph signature.

use std::num::NonZeroUsize;

use lru::LruCache;
use vstd::prelude::*;

use crate::kernel::cudnn::graph::OperationGraphSpec;
use crate::kernel::cudnn::tensor::DtypeTag;
use crate::kernel::lru_model;

verus! {

/// Plans that the cache keeps where nothing else is asked for.
pub const DEFAULT_PLAN_CACHE_SIZE: usize = 256;

/// A prepared plan. Without a GPU it records only that the graph was prepared.
#[derive(Debug, Clone, Copy)]
pub struct CachedPlan {
    pub signature: u64,
    pub op_kind: &'static str,
    pub dtype: DtypeTag,
    pub workspace_bytes: usize,
    /// Handle of the execution plan, where there is one.
    pub plan: Option<u64>,
}

/// Key of a plan.
#[derive(Debug, Clone, Copy, PartialEq, Eq, Hash)]
pub struct PlanCacheKey {
    pub op_kind: &'static str,
    pub dtype: DtypeTag,
    pub signature: u64,
}

/// A [`PlanCacheKey`] as a tuple, as the cache holds it.
pub type PlanKeyTuple = (&'static str, u64, u64);

/// A [`PlanCacheKey`] in contracts: the operation's name by its characters.
pub type PlanKeyView = (Seq<char>, u64, u64);

impl View for PlanCacheKey {
    type V = PlanKeyView;

    open spec fn view(&self) -> PlanKeyView {
        (self.op_kind@, self.dtype.spec_code(), self.signature)
    }
}

impl PlanCacheKey {
    fn to_tuple(&self) -> (t: PlanKeyTuple)
        ensures
            t.0@ == self@.0,
            t.1 == self@.1,
            t.2 == self@.2,
    {
        (self.op_kind, self.dtype.code(), self.signature)
    }
}

/// Key of a graph's plan.
pub fn cache_key(op_kind: &'static str, dtype: DtypeTag, graph: &OperationGraphSpec) -> (k:
    PlanCacheKey)
    ensures
        k == (PlanCacheKey { op_kind, dtype, signature: graph@.spec_signature() }),
{
    PlanCacheKey { op_kind, dtype, signature: graph.signature() }
}

/// The plans in a cache by key, most recently used first.
pub uninterp spec fn plan_entries(cache: LruCache<PlanKeyTuple, CachedPlan>) -> Seq<
    (PlanKeyView, CachedPlan),
>;

/// The capacity that a cache was made with.
pub uninterp spec fn plan_capacity(cache: LruCache<PlanKeyTuple, CachedPlan>) -> nat;

/// `lru::LruCache::new`: an empty cache of this capacity. The table for it is
/// allocated up front, so a capacity whose table does not fit in the address
/// space is left out.
#[verifier::external_body]
fn plans_new(capacity: usize) -> (cache: LruCache<PlanKeyTuple, CachedPlan>)
    requires
        0 < capacity,
        64 * capacity <= isize::MAX,
    ensures
        plan_entries(cache) == Seq::<(PlanKeyView, CachedPlan)>::empty(),
        plan_capacity(cache) == capacity,
{
    LruCache::new(NonZeroUsize::new(capacity).unwrap())
}

/// `lru::LruCache::get`: the plan of the key, whose entry moves to the front;
/// on a miss nothing changes.
#[verifier::external_body]
fn plans_get(cache: &mut LruCache<PlanKeyTuple, CachedPlan>, key: &PlanKeyTuple) -> (r: Option<
    CachedPlan,
>)
    ensures
        r == lru_model::cached(plan_entries(*old(cache)), (key.0@, key.1, key.2)),
        plan_entries(*final(cache)) == lru_model::touched(
            plan_entries(*old(cache)),
            (key.0@, key.1, key.2),
        ),
        plan_capacity(*final(cache)) == plan_capacity(*old(cache)),
{
    cache.get(key).copied()
}

/// `lru::LruCache::put`: the entry is at the front, in place of the key's
/// older one, or else of the least recently used one where the cache is full.
#[verifier::external_body]
fn plans_put(cache: &mut LruCache<PlanKeyTuple, CachedPlan>, key: PlanKeyTuple, plan: CachedPlan)
    ensures
        plan_entries(*final(cache)) == lru_model::inserted(
            plan_entries(*old(cache)),
            plan_capacity(*old(cache)),
            (key.0@, key.1, key.2),
            plan,
        ),
        plan_capacity(*final(cache)) == plan_capacity(*old(cache)),
{
    cache.put(key, plan);
}

/// `lru::LruCache::len`: the number of entries.
#[verifier::external_body]
fn plans_len(cache: &LruCache<PlanKeyTuple, CachedPlan>) -> (n: usize)
    ensures
        n == plan_entries(*cache).len(),
{
    cache.len()
}

/// `lru::LruCache::cap`: the capacity.
#[verifier::external_body]
fn plans_cap(cache: &LruCache<PlanKeyTuple, CachedPlan>) -> (n: usize)
    ensures
        n == plan_capacity(*cache),
{
    cache.cap().get()
}

/// `lru::LruCache::clear`: no entries are left, and the capacity stays.
#[verifier::external_body]
fn plans_clear(cache: &mut LruCache<PlanKeyTuple, CachedPlan>)
    ensures
        plan_entries(*final(cache)) == Seq::<(PlanKeyView, CachedPlan)>::empty(),
        plan_capacity(*final(cache)) == plan_capacity(*old(cache)),
{
    cache.clear();
}

/// The plan cache, shared by all the operations.
pub struct PlanCache {
    inner: LruCache<PlanKeyTuple, CachedPlan>,
}

impl PlanCache {
    /// The cached plans by key, most recently used first.
    pub closed spec fn view(&self) -> Seq<(PlanKeyView, CachedPlan)> {
        plan_entries(self.inner)
    }

    /// Most plans that the cache keeps.
    pub closed spec fn capacity(&self) -> nat {
        plan_capacity(self.inner)
    }

    /// No key occurs twice, and the capacity is kept to.
    pub open spec fn wf(&self) -> bool {
        lru_model::well_formed(self@, self.capacity())
    }

    /// Empty cache of this capacity, at least one.
    pub fn new(cap: usize) -> (c: PlanCache)
        requires
            64 * cap <= isize::MAX,
        ensures
            c.wf(),
            c@ == Seq::<(PlanKeyView, CachedPlan)>::empty(),
            c.capacity() == if cap == 0 {
                1
            } else {
                cap as nat
            },
    {
        let capacity: usize = if cap < 1 {
            1
        } else {
            cap
        };
        PlanCache { inner: plans_new(capacity) }
    }

    /// The plan of a key, if it is cached. A hit becomes the most recently
    /// used entry.
    pub fn get(&mut self, key: &PlanCacheKey) -> (r: Option<CachedPlan>)
        requires
            old(self).wf(),
        ensures
            r == lru_model::cached(old(self)@, key@),
            final(self)@ == lru_model::touched(old(self)@, key@),
            final(self).capacity() == old(self).capacity(),
            final(self).wf(),
    {
        proof {
            lru_model::lemma_touched_well_formed(self@, self.capacity(), key@);
        }
        let t = key.to_tuple();
        plans_get(&mut self.inner, &t)
    }

    /// Cache the plan of a key, evicting the least recently used entry where
    /// the cache is full.
    pub fn put(&mut self, key: PlanCacheKey, plan: CachedPlan)
        requires
            old(self).wf(),
        ensures
            final(self)@ == lru_model::inserted(old(self)@, old(self).capacity(), key@, plan),
            final(self).capacity() == old(self).capacity(),
            final(self).wf(),
    {
        proof {
            lru_model::lemma_inserted_well_formed(self@, self.capacity(), key@, plan);
        }
        let t = key.to_tuple();
        plans_put(&mut self.inner, t, plan);
    }

    /// Number of cached plans.
    pub fn len(&self) -> (n: usize)
        ensures
            n == self@.len(),
    {
        plans_len(&self.inner)
    }

    /// Most plans that the cache keeps.
    pub fn cap(&self) -> (n: usize)
        ensures
            n == self.capacity(),
    {
        plans_cap(&self.inner)
    }

    /// Forget every plan.
    pub fn clear(&mut self)
        requires
            old(self).wf(),
        ensures
            final(self)@ == Seq::<(PlanKeyView, CachedPlan)>::empty(),
            final(self).capacity() == old(self).capacity(),
            final(self).wf(),
    {
        plans_clear(&mut self.inner);
    }
}

impl Default for PlanCache {
    fn default() -> (c: PlanCache)
        ensures
            c.wf(),
            c@ == Seq::<(PlanKeyView, CachedPlan)>::empty(),
            c.capacity() == DEFAULT_PLAN_CACHE_SIZE,
    {
        PlanCache::new(DEFAULT_PLAN_CACHE_SIZE)
    }
}

/// Two keys share a plan exactly when they agree in the operation's name, the
/// element type and the signature.
pub proof fn law_plan_keys_distinguish(a: PlanCacheKey, b: PlanCacheKey)
    ensures
        a@ == b@ <==> a.op_kind@ == b.op_kind@ && a.dtype == b.dtype && a.signature == b.signature,
{
}

} // verus!
