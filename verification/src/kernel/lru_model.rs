//! Least-recently-used caches as sequences of entries, most recent first.

use vstd::prelude::*;

verus! {

/// The cache type of the `lru` crate, held as an opaque value. What is in a
/// cache is named next to the functions that call into the crate.
#[verifier::external_type_specification]
#[verifier::external_body]
#[verifier::reject_recursive_types(K)]
#[verifier::reject_recursive_types(V)]
#[verifier::reject_recursive_types(S)]
pub struct ExLruCache<K, V, S>(lru::LruCache<K, V, S>);

/// The hash builder that the `lru` crate uses by default, an opaque value.
#[verifier::external_type_specification]
#[verifier::external_body]
pub struct ExLruHasher(lru::DefaultHasher);

/// The entry of `key` is at `at`.
pub open spec fn found_at<K, V>(entries: Seq<(K, V)>, key: K, at: int) -> bool {
    0 <= at < entries.len() && entries[at].0 == key
}

/// The cache holds `key`.
pub open spec fn holds<K, V>(entries: Seq<(K, V)>, key: K) -> bool {
    exists|at: int| found_at(entries, key, at)
}

/// Where the entry of `key` is.
pub open spec fn position<K, V>(entries: Seq<(K, V)>, key: K) -> int {
    choose|at: int| found_at(entries, key, at)
}

/// The value cached under `key`.
pub open spec fn cached<K, V>(entries: Seq<(K, V)>, key: K) -> Option<V> {
    if holds(entries, key) {
        Some(entries[position(entries, key)].1)
    } else {
        None
    }
}

/// The entries after a lookup: a hit moves to the front.
pub open spec fn touched<K, V>(entries: Seq<(K, V)>, key: K) -> Seq<(K, V)> {
    if holds(entries, key) {
        seq![entries[position(entries, key)]] + entries.remove(position(entries, key))
    } else {
        entries
    }
}

/// The entries after an insertion: the new entry is at the front, in place of
/// an older one of the same key, or else of the last entry where the cache is
/// full.
pub open spec fn inserted<K, V>(entries: Seq<(K, V)>, capacity: nat, key: K, value: V) -> Seq<
    (K, V),
> {
    if holds(entries, key) {
        seq![(key, value)] + entries.remove(position(entries, key))
    } else if entries.len() == capacity {
        seq![(key, value)] + entries.drop_last()
    } else {
        seq![(key, value)] + entries
    }
}

/// No key occurs twice, and the entries keep to the capacity.
pub open spec fn well_formed<K, V>(entries: Seq<(K, V)>, capacity: nat) -> bool {
    &&& 0 < capacity
    &&& entries.len() <= capacity
    &&& forall|i: int, j: int|
        0 <= i < entries.len() && 0 <= j < entries.len() && i != j ==> (#[trigger] entries[i]).0 != (
        #[trigger] entries[j]).0
}

pub proof fn lemma_touched_well_formed<K, V>(entries: Seq<(K, V)>, capacity: nat, key: K)
    requires
        well_formed(entries, capacity),
    ensures
        well_formed(touched(entries, key), capacity),
        touched(entries, key).len() == entries.len(),
{
    if holds(entries, key) {
        let p = position(entries, key);
        let rest = entries.remove(p);
        assert forall|i: int| 0 <= i < rest.len() implies #[trigger] rest[i] == entries[if i < p {
            i
        } else {
            i + 1
        }] by {}
    }
}

pub proof fn lemma_inserted_well_formed<K, V>(
    entries: Seq<(K, V)>,
    capacity: nat,
    key: K,
    value: V,
)
    requires
        well_formed(entries, capacity),
    ensures
        well_formed(inserted(entries, capacity, key, value), capacity),
        inserted(entries, capacity, key, value).len() == if holds(entries, key) || entries.len()
            == capacity {
            entries.len()
        } else {
            entries.len() + 1
        },
{
    if holds(entries, key) {
        let p = position(entries, key);
        let rest = entries.remove(p);
        assert forall|i: int| 0 <= i < rest.len() implies #[trigger] rest[i] == entries[if i < p {
            i
        } else {
            i + 1
        }] by {}
        assert(found_at(entries, key, p));
    } else {
        assert forall|i: int| 0 <= i < entries.len() implies (#[trigger] entries[i]).0 != key by {
            if entries[i].0 == key {
                assert(found_at(entries, key, i));
            }
        }
    }
}

/// An entry that was just inserted is found, whatever was in the cache.
pub proof fn law_insert_then_hit<K, V>(entries: Seq<(K, V)>, capacity: nat, key: K, value: V)
    requires
        well_formed(entries, capacity),
    ensures
        cached(inserted(entries, capacity, key, value), key) == Some(value),
{
    lemma_inserted_well_formed(entries, capacity, key, value);
    let after = inserted(entries, capacity, key, value);
    assert(found_at(after, key, 0));
    let p = position(after, key);
    assert(found_at(after, key, p));
    if p != 0 {
        assert(after[p].0 != after[0].0);
    }
}

/// A lookup changes the order of the entries and nothing else: every key is
/// cached after it with the value of before.
pub proof fn law_lookup_keeps_contents<K, V>(
    entries: Seq<(K, V)>,
    capacity: nat,
    key: K,
    other: K,
)
    requires
        well_formed(entries, capacity),
    ensures
        cached(touched(entries, key), other) == cached(entries, other),
{
    lemma_touched_well_formed(entries, capacity, key);
    if holds(entries, key) {
        let p = position(entries, key);
        assert(found_at(entries, key, p));
        let rest = entries.remove(p);
        let after = touched(entries, key);
        assert forall|i: int| 0 <= i < rest.len() implies #[trigger] rest[i] == entries[if i < p {
            i
        } else {
            i + 1
        }] by {}
        if holds(entries, other) {
            let q = position(entries, other);
            assert(found_at(entries, other, q));
            let moved = if q == p {
                0int
            } else if q < p {
                q + 1
            } else {
                q
            };
            assert(after[moved] == entries[q]);
            assert(found_at(after, other, moved));
            let r = position(after, other);
            assert(found_at(after, other, r));
            if r != moved {
                assert(after[r].0 != after[moved].0);
            }
        } else {
            if holds(after, other) {
                let r = position(after, other);
                assert(found_at(after, other, r));
                let orig = if r == 0 {
                    p
                } else if r - 1 < p {
                    r - 1
                } else {
                    r
                };
                assert(after[r] == entries[orig]);
                assert(found_at(entries, other, orig));
            }
        }
    }
}

/// An insertion evicts at most one entry, and only where the cache is full and
/// the key is new; the evicted entry is the one used least recently. Every
/// other key stays cached with its value.
pub proof fn law_insert_evicts_least_recent<K, V>(
    entries: Seq<(K, V)>,
    capacity: nat,
    key: K,
    value: V,
    other: K,
)
    requires
        well_formed(entries, capacity),
        other != key,
    ensures
        (!holds(entries, key) && entries.len() == capacity && entries.last().0 == other) ==> cached(
            inserted(entries, capacity, key, value),
            other,
        ) is None,
        !(!holds(entries, key) && entries.len() == capacity && entries.last().0 == other)
            ==> cached(inserted(entries, capacity, key, value), other) == cached(entries, other),
{
    lemma_inserted_well_formed(entries, capacity, key, value);
    let after = inserted(entries, capacity, key, value);
    let p = position(entries, key);
    let full = !holds(entries, key) && entries.len() == capacity;
    if holds(entries, key) {
        assert(found_at(entries, key, p));
        let rest = entries.remove(p);
        assert forall|i: int| 0 <= i < rest.len() implies #[trigger] rest[i] == entries[if i < p {
            i
        } else {
            i + 1
        }] by {}
    }
    if holds(after, other) {
        let r = position(after, other);
        assert(found_at(after, other, r));
        assert(r > 0);
        let orig = if holds(entries, key) && r - 1 >= p {
            r
        } else {
            r - 1
        };
        assert(after[r] == entries[orig]);
        assert(found_at(entries, other, orig));
        let q = position(entries, other);
        assert(found_at(entries, other, q));
        if q != orig {
            assert(entries[q].0 != entries[orig].0);
        }
    }
    if holds(entries, other) {
        let q = position(entries, other);
        assert(found_at(entries, other, q));
        if full && entries.last().0 == other {
            let last = entries.len() - 1;
            if q != last {
                assert(entries[q].0 != entries[last].0);
            }
        } else {
            let moved = if holds(entries, key) && q > p {
                q
            } else {
                q + 1
            };
            if holds(entries, key) && q == p {
                assert(entries[p].0 == key);
            }
            assert(after[moved] == entries[q]);
            assert(found_at(after, other, moved));
        }
    }
}

/// A hit becomes the most recently used entry, and one that was just inserted is
/// it, too.
pub proof fn law_used_last_is_first<K, V>(
    entries: Seq<(K, V)>,
    capacity: nat,
    key: K,
    value: V,
)
    requires
        well_formed(entries, capacity),
    ensures
        cached(entries, key) matches Some(v) ==> touched(entries, key)[0] == (key, v),
        cached(entries, key) is None ==> touched(entries, key) == entries,
        inserted(entries, capacity, key, value)[0] == (key, value),
        cached(entries, key) is Some ==> touched(entries, key).len() == entries.len(),
{
    lemma_touched_well_formed(entries, capacity, key);
    if holds(entries, key) {
        assert(found_at(entries, key, position(entries, key)));
    }
}

/// An entry that was just looked up survives the next insertion, unless the cache
/// has room for one entry alone.
pub proof fn law_fresh_hit_survives<K, V>(
    entries: Seq<(K, V)>,
    capacity: nat,
    key: K,
    other: K,
    value: V,
)
    requires
        well_formed(entries, capacity),
        capacity >= 2,
        holds(entries, key),
        other != key,
    ensures
        cached(inserted(touched(entries, key), capacity, other, value), key) == cached(
            entries,
            key,
        ),
{
    lemma_touched_well_formed(entries, capacity, key);
    law_used_last_is_first(entries, capacity, key, value);
    law_lookup_keeps_contents(entries, capacity, key, key);
    let after = touched(entries, key);
    assert(found_at(entries, key, position(entries, key)));
    assert(after[0].0 == key);
    if after.len() == capacity && after.last().0 == key {
        assert(after[after.len() - 1].0 != after[0].0);
    }
    law_insert_evicts_least_recent(after, capacity, other, value, key);
}

/// A lookup leaves the others in their order: of two other entries the one that
/// was used later stays before the other.
pub proof fn law_lookup_keeps_the_order<K, V>(entries: Seq<(K, V)>, key: K, i: int, j: int)
    requires
        holds(entries, key),
        0 <= i < j < entries.len(),
        i != position(entries, key),
        j != position(entries, key),
    ensures
        ({
            let p = position(entries, key);
            let after = touched(entries, key);
            let (i2, j2) = (
                if i < p {
                    i + 1
                } else {
                    i
                },
                if j < p {
                    j + 1
                } else {
                    j
                },
            );
            &&& i2 < j2
            &&& after[i2] == entries[i]
            &&& after[j2] == entries[j]
        }),
{
    assert(found_at(entries, key, position(entries, key)));
}

} // verus!
