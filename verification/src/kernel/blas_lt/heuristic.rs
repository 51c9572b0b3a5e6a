//! Cache of matrix product algorithms by problem shape.
//!
//! Searching for an algorithm takes milliseconds, so the best one found for a
//! shape is kept under [`HeuristicKey`] in a least-recently-used cache.

use std::num::NonZeroUsize;

use lru::LruCache;
use vstd::prelude::*;

use crate::dtype::{DTypeKind, F32};
use crate::kernel::blas_lt::epilogue::Epilogue;
use crate::kernel::lru_model;

verus! {

/// Everything that the choice of an algorithm depends on.
#[derive(Debug, Clone, Copy, PartialEq, Eq, Hash, Structural)]
pub struct HeuristicKey {
    pub m: i32,
    pub n: i32,
    pub k: i32,
    pub dtype: u32,
    pub transa: bool,
    pub transb: bool,
    pub epilogue: Epilogue,
    pub sm_arch: u32,
}

/// Number of a dtype in a cache key.
pub open spec fn dtype_code(d: DTypeKind) -> u32 {
    match d {
        DTypeKind::F32 => 0,
        DTypeKind::F64 => 1,
        DTypeKind::F16 => 2,
        DTypeKind::Bf16 => 3,
        DTypeKind::I8 => 4,
        DTypeKind::I32 => 5,
        DTypeKind::I64 => 6,
        DTypeKind::U8 => 7,
        DTypeKind::U32 => 8,
        DTypeKind::U64 => 9,
        DTypeKind::F8E4m3 => 10,
        DTypeKind::F8E5m2 => 11,
    }
}

fn code_of(d: DTypeKind) -> (c: u32)
    ensures
        c == dtype_code(d),
{
    match d {
        DTypeKind::F32 => 0,
        DTypeKind::F64 => 1,
        DTypeKind::F16 => 2,
        DTypeKind::Bf16 => 3,
        DTypeKind::I8 => 4,
        DTypeKind::I32 => 5,
        DTypeKind::I64 => 6,
        DTypeKind::U8 => 7,
        DTypeKind::U32 => 8,
        DTypeKind::U64 => 9,
        DTypeKind::F8E4m3 => 10,
        DTypeKind::F8E5m2 => 11,
    }
}

/// A [`HeuristicKey`] as a tuple of integers.
pub type KeyTuple = (i32, i32, i32, u32, bool, bool, u32, u32);

impl HeuristicKey {
    /// The key of a problem.
    pub fn new(
        m: i32,
        n: i32,
        k: i32,
        dtype: DTypeKind,
        transa: bool,
        transb: bool,
        epilogue: Epilogue,
        sm_arch: u32,
    ) -> (key: HeuristicKey)
        ensures
            key == (HeuristicKey {
                m,
                n,
                k,
                dtype: dtype_code(dtype),
                transa,
                transb,
                epilogue,
                sm_arch,
            }),
    {
        HeuristicKey { m, n, k, dtype: code_of(dtype), transa, transb, epilogue, sm_arch }
    }

    /// The key as a tuple of integers.
    pub open spec fn tuple(self) -> KeyTuple {
        (
            self.m,
            self.n,
            self.k,
            self.dtype,
            self.transa,
            self.transb,
            self.epilogue.spec_code(),
            self.sm_arch,
        )
    }

    fn to_tuple(&self) -> (t: KeyTuple)
        ensures
            t == self.tuple(),
    {
        (
            self.m,
            self.n,
            self.k,
            self.dtype,
            self.transa,
            self.transb,
            self.epilogue.code(),
            self.sm_arch,
        )
    }
}

/// The algorithm kept for a shape.
#[derive(Debug, Clone, Copy)]
pub struct HeuristicEntry {
    /// The library's opaque algorithm.
    pub algo: [u64; 8],
    /// Workspace that the algorithm asks for, in bytes.
    pub workspace_size: usize,
    /// Number of waves that the search reported; lower is better.
    pub waves_count: F32,
}

/// Entries of the cache where nothing else is asked for.
pub const DEFAULT_HEURISTIC_CAPACITY: usize = 256;

/// Algorithms asked for on a miss; the one with the fewest waves is kept.
pub const DEFAULT_TOP_K: usize = 3;

/// The entries of a cache, most recently used first.
pub uninterp spec fn heuristic_entries(cache: LruCache<KeyTuple, HeuristicEntry>) -> Seq<
    (KeyTuple, HeuristicEntry),
>;

/// The capacity that a cache was made with.
pub uninterp spec fn heuristic_capacity(cache: LruCache<KeyTuple, HeuristicEntry>) -> nat;

/// `lru::LruCache::new`: an empty cache of this capacity. The table for it is
/// allocated up front, so a capacity whose table does not fit in the address
/// space is left out.
#[verifier::external_body]
fn lru_new(capacity: usize) -> (cache: LruCache<KeyTuple, HeuristicEntry>)
    requires
        0 < capacity,
        64 * capacity <= isize::MAX,
    ensures
        heuristic_entries(cache) == Seq::<(KeyTuple, HeuristicEntry)>::empty(),
        heuristic_capacity(cache) == capacity,
{
    LruCache::new(NonZeroUsize::new(capacity).unwrap())
}

/// `lru::LruCache::get`: the value of the key, whose entry moves to the front;
/// on a miss nothing changes.
#[verifier::external_body]
fn lru_get(cache: &mut LruCache<KeyTuple, HeuristicEntry>, key: &KeyTuple) -> (r: Option<
    HeuristicEntry,
>)
    ensures
        r == lru_model::cached(heuristic_entries(*old(cache)), *key),
        heuristic_entries(*final(cache)) == lru_model::touched(
            heuristic_entries(*old(cache)),
            *key,
        ),
        heuristic_capacity(*final(cache)) == heuristic_capacity(*old(cache)),
{
    cache.get(key).copied()
}

/// `lru::LruCache::put`: the entry is at the front, in place of the key's
/// older one, or else of the least recently used one where the cache is full.
#[verifier::external_body]
fn lru_put(cache: &mut LruCache<KeyTuple, HeuristicEntry>, key: KeyTuple, value: HeuristicEntry)
    ensures
        heuristic_entries(*final(cache)) == lru_model::inserted(
            heuristic_entries(*old(cache)),
            heuristic_capacity(*old(cache)),
            key,
            value,
        ),
        heuristic_capacity(*final(cache)) == heuristic_capacity(*old(cache)),
{
    cache.put(key, value);
}

/// `lru::LruCache::len`: the number of entries.
#[verifier::external_body]
fn lru_len(cache: &LruCache<KeyTuple, HeuristicEntry>) -> (n: usize)
    ensures
        n == heuristic_entries(*cache).len(),
{
    cache.len()
}

/// The heuristic cache.
pub struct HeuristicCacheRef {
    inner: LruCache<KeyTuple, HeuristicEntry>,
    top_k: usize,
}

impl HeuristicCacheRef {
    /// The cached algorithms by key, most recently used first.
    pub closed spec fn view(&self) -> Seq<(KeyTuple, HeuristicEntry)> {
        heuristic_entries(self.inner)
    }

    /// Most entries that the cache keeps.
    pub closed spec fn capacity(&self) -> nat {
        heuristic_capacity(self.inner)
    }

    /// No key occurs twice, and the capacity is kept to.
    pub open spec fn wf(&self) -> bool {
        lru_model::well_formed(self@, self.capacity())
    }

    /// Algorithms asked for on a miss.
    pub closed spec fn spec_top_k(&self) -> usize {
        self.top_k
    }

    /// Empty cache of this capacity, at least one.
    pub fn with_capacity(capacity: usize) -> (c: HeuristicCacheRef)
        requires
            64 * capacity <= isize::MAX,
        ensures
            c.wf(),
            c@ == Seq::<(KeyTuple, HeuristicEntry)>::empty(),
            c.capacity() == if capacity == 0 {
                1
            } else {
                capacity as nat
            },
            c.spec_top_k() == DEFAULT_TOP_K,
    {
        let cap: usize = if capacity < 1 {
            1
        } else {
            capacity
        };
        HeuristicCacheRef { inner: lru_new(cap), top_k: DEFAULT_TOP_K }
    }

    /// Empty cache of the default capacity.
    pub fn default_size() -> (c: HeuristicCacheRef)
        ensures
            c.wf(),
            c@ == Seq::<(KeyTuple, HeuristicEntry)>::empty(),
            c.capacity() == DEFAULT_HEURISTIC_CAPACITY,
            c.spec_top_k() == DEFAULT_TOP_K,
    {
        HeuristicCacheRef::with_capacity(DEFAULT_HEURISTIC_CAPACITY)
    }

    /// Algorithms to ask for on a miss.
    pub fn top_k(&self) -> (k: usize)
        ensures
            k == self.spec_top_k(),
    {
        self.top_k
    }

    /// The algorithm of a shape, if it is cached. A hit becomes the most
    /// recently used entry.
    pub fn get(&mut self, key: &HeuristicKey) -> (r: Option<HeuristicEntry>)
        requires
            old(self).wf(),
        ensures
            r == lru_model::cached(old(self)@, key.tuple()),
            final(self)@ == lru_model::touched(old(self)@, key.tuple()),
            final(self).capacity() == old(self).capacity(),
            final(self).spec_top_k() == old(self).spec_top_k(),
            final(self).wf(),
    {
        proof {
            lru_model::lemma_touched_well_formed(self@, self.capacity(), key.tuple());
        }
        let t = key.to_tuple();
        lru_get(&mut self.inner, &t)
    }

    /// Cache the algorithm of a shape, evicting the least recently used entry
    /// where the cache is full.
    pub fn insert(&mut self, key: HeuristicKey, entry: HeuristicEntry)
        requires
            old(self).wf(),
        ensures
            final(self)@ == lru_model::inserted(
                old(self)@,
                old(self).capacity(),
                key.tuple(),
                entry,
            ),
            final(self).capacity() == old(self).capacity(),
            final(self).spec_top_k() == old(self).spec_top_k(),
            final(self).wf(),
    {
        proof {
            lru_model::lemma_inserted_well_formed(self@, self.capacity(), key.tuple(), entry);
        }
        let t = key.to_tuple();
        lru_put(&mut self.inner, t, entry);
    }

    /// Number of cached algorithms.
    pub fn len(&self) -> (n: usize)
        ensures
            n == self@.len(),
    {
        lru_len(&self.inner)
    }

    pub fn is_empty(&self) -> (b: bool)
        ensures
            b == (self@.len() == 0),
    {
        self.len() == 0
    }
}

/// Two problems share a cache entry exactly when they agree in every respect
/// that the key records.
pub proof fn law_keys_distinguish_problems(a: HeuristicKey, b: HeuristicKey)
    ensures
        a.tuple() == b.tuple() <==> a == b,
{
    crate::kernel::blas_lt::epilogue::law_epilogue_mapping(a.epilogue, b.epilogue);
}

/// Two dtypes have the same number only if they are the same.
pub proof fn law_dtype_codes_distinct(a: DTypeKind, b: DTypeKind)
    ensures
        dtype_code(a) == dtype_code(b) <==> a == b,
{
}

/// The dtypes are numbered in the order of their declaration.
pub proof fn law_dtype_codes_count_up()
    ensures
        dtype_code(DTypeKind::F32) == 0,
        dtype_code(DTypeKind::F64) == 1,
        dtype_code(DTypeKind::F16) == 2,
        dtype_code(DTypeKind::Bf16) == 3,
        dtype_code(DTypeKind::I8) == 4,
        dtype_code(DTypeKind::I32) == 5,
        dtype_code(DTypeKind::I64) == 6,
        dtype_code(DTypeKind::U8) == 7,
        dtype_code(DTypeKind::U32) == 8,
        dtype_code(DTypeKind::U64) == 9,
        dtype_code(DTypeKind::F8E4m3) == 10,
        dtype_code(DTypeKind::F8E5m2) == 11,
{
}

/// The tuple of a key is the key field by field, in the order of its declaration.
pub proof fn law_key_tuple(key: HeuristicKey)
    ensures
        key.tuple().0 == key.m,
        key.tuple().1 == key.n,
        key.tuple().2 == key.k,
        key.tuple().3 == key.dtype,
        key.tuple().4 == key.transa,
        key.tuple().5 == key.transb,
        key.tuple().6 == key.epilogue.spec_code(),
        key.tuple().7 == key.sm_arch,
{
}

} // verus!
