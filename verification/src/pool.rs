//! The identifier pool of a run: for every collection, the identifiers that
//! its documents get.
//!
//! The pool is made before any document is generated. A document of one
//! collection can then refer to a document of another, whichever of the two
//! is generated first.

use crate::faker;
use crate::ordered_map::{
    has_key, index_of_key, keys_distinct, lemma_key_finds_entry,
    lemma_with_entry_keeps_keys_distinct, lookup, with_entry, OrderedMap,
};
use crate::types::CollectionConfig;
use crate::value::{lemma_number_tells_bytes_apart, number_of, ObjectId};
use std::collections::HashSet;
use vstd::prelude::*;
use vstd::std_specs::hash::group_hash_axioms;

verus! {

broadcast use group_hash_axioms;

/// The identifiers allotted to each collection, by the collection's name.
pub type IdPool = OrderedMap<Vec<ObjectId>>;

/// The model of an identifier pool.
pub type PoolView = Seq<(Seq<char>, Vec<ObjectId>)>;

/// The number of identifiers that each collection of a run is to get, by the
/// collection's name and in the order in which the names first occur. Where
/// two collections share a name, the later one decides.
pub open spec fn pool_shape(collections: Seq<CollectionConfig>) -> Seq<(Seq<char>, nat)>
    decreases collections.len(),
{
    if collections.len() == 0 {
        Seq::<(Seq<char>, nat)>::empty()
    } else {
        with_entry(
            pool_shape(collections.drop_last()),
            collections.last().name@,
            collections.last().number_of_items as nat,
        )
    }
}

/// The number of identifiers that `pool` holds under each name.
pub open spec fn pool_counts(pool: PoolView) -> Seq<(Seq<char>, nat)> {
    Seq::new(pool.len(), |i: int| (pool[i].0, pool[i].1@.len()))
}

/// All identifiers of `pool`, collection after collection.
pub open spec fn all_ids(pool: PoolView) -> Seq<ObjectId>
    decreases pool.len(),
{
    if pool.len() == 0 {
        Seq::<ObjectId>::empty()
    } else {
        all_ids(pool.drop_last()) + pool.last().1@
    }
}

/// No identifier occurs twice in `ids`.
pub open spec fn ids_distinct(ids: Seq<ObjectId>) -> bool {
    forall|i: int, j: int|
        0 <= i < j < ids.len() ==> (#[trigger] ids[i]).bytes@ != (#[trigger] ids[j]).bytes@
}

/// No two of `collections` share a name.
pub open spec fn names_distinct(collections: Seq<CollectionConfig>) -> bool {
    forall|i: int, j: int|
        0 <= i < j < collections.len() ==> (#[trigger] collections[i]).name@ != (
        #[trigger] collections[j]).name@
}

/// Storing identifiers under a name stores their number under that name.
pub proof fn lemma_counts_after_store(pool: PoolView, name: Seq<char>, ids: Vec<ObjectId>)
    requires
        keys_distinct(pool),
    ensures
        pool_counts(with_entry(pool, name, ids)) == with_entry(
            pool_counts(pool),
            name,
            ids@.len(),
        ),
{
    let counts = pool_counts(pool);
    assert(keys_distinct(counts)) by {
        assert forall|i: int, j: int| 0 <= i < j < counts.len() implies (#[trigger] counts[i]).0
            != (#[trigger] counts[j]).0 by {
            assert(pool[i].0 != pool[j].0);
        }
    }
    if has_key(pool, name) {
        let p = index_of_key(pool, name);
        assert(counts[p].0 == name);
        lemma_key_finds_entry(counts, p);
        assert(pool_counts(with_entry(pool, name, ids)) =~= with_entry(counts, name, ids@.len()));
    } else {
        if has_key(counts, name) {
            let q = index_of_key(counts, name);
            assert(pool[q].0 == name);
        }
        assert(pool_counts(with_entry(pool, name, ids)) =~= with_entry(counts, name, ids@.len()));
    }
}

/// The names of a shape are distinct, and each is the name of a collection.
pub proof fn lemma_pool_shape_names(collections: Seq<CollectionConfig>)
    ensures
        keys_distinct(pool_shape(collections)),
        forall|name: Seq<char>|
            has_key(pool_shape(collections), name) <==> exists|k: int|
                0 <= k < collections.len() && (#[trigger] collections[k]).name@ == name,
    decreases collections.len(),
{
    let shape = pool_shape(collections);
    if collections.len() > 0 {
        let earlier = collections.drop_last();
        let last = collections.last();
        let before = pool_shape(earlier);
        lemma_pool_shape_names(earlier);
        lemma_with_entry_keeps_keys_distinct(before, last.name@, last.number_of_items as nat);
        assert forall|name: Seq<char>| has_key(shape, name) <==> exists|k: int|
            0 <= k < collections.len() && (#[trigger] collections[k]).name@ == name by {
            if has_key(shape, name) {
                let p = index_of_key(shape, name);
                assert(0 <= p < shape.len() && shape[p].0 == name);
                if name != last.name@ {
                    assert(before[p].0 == name);
                    assert(has_key(before, name));
                    let k = choose|k: int|
                        0 <= k < earlier.len() && (#[trigger] earlier[k]).name@ == name;
                    assert(collections[k].name@ == name);
                } else {
                    assert(collections[collections.len() - 1].name@ == name);
                }
            }
            if exists|k: int|
                0 <= k < collections.len() && (#[trigger] collections[k]).name@ == name {
                let k = choose|k: int|
                    0 <= k < collections.len() && (#[trigger] collections[k]).name@ == name;
                if name == last.name@ {
                    let p = if has_key(before, name) {
                        index_of_key(before, name)
                    } else {
                        before.len() as int
                    };
                    assert(shape[p].0 == name);
                } else {
                    assert(earlier[k].name@ == name);
                    assert(has_key(before, name));
                    let p = index_of_key(before, name);
                    assert(shape[p].0 == name);
                }
            }
        }
    }
}

/// Where no two collections share a name, the shape has the collections in
/// their order, each with the number that it asks for.
pub proof fn lemma_pool_shape_of_distinct_names(collections: Seq<CollectionConfig>)
    requires
        names_distinct(collections),
    ensures
        pool_shape(collections).len() == collections.len(),
        forall|k: int|
            0 <= k < collections.len() ==> #[trigger] pool_shape(collections)[k] == (
                collections[k].name@,
                collections[k].number_of_items as nat,
            ),
    decreases collections.len(),
{
    if collections.len() > 0 {
        let earlier = collections.drop_last();
        let last = collections.last();
        let before = pool_shape(earlier);
        assert(names_distinct(earlier)) by {
            assert forall|i: int, j: int| 0 <= i < j < earlier.len() implies (
            #[trigger] earlier[i]).name@ != (#[trigger] earlier[j]).name@ by {
                assert(collections[i].name@ != collections[j].name@);
            }
        }
        lemma_pool_shape_of_distinct_names(earlier);
        if has_key(before, last.name@) {
            let p = index_of_key(before, last.name@);
            assert(before[p].0 == last.name@);
            assert(collections[p].name@ != collections[collections.len() - 1].name@);
        }
    }
}

/// Where no two collections share a name, a pool of the run's shape holds
/// for each collection exactly as many identifiers as it is to get documents.
pub proof fn lemma_pool_holds_the_number_asked_for(
    collections: Seq<CollectionConfig>,
    pool: PoolView,
    k: int,
)
    requires
        names_distinct(collections),
        pool_counts(pool) == pool_shape(collections),
        0 <= k < collections.len(),
    ensures
        lookup(pool, collections[k].name@) matches Some(ids) && ids@.len()
            == collections[k].number_of_items,
{
    lemma_pool_shape_of_distinct_names(collections);
    lemma_pool_shape_names(collections);
    let counts = pool_counts(pool);
    assert(counts[k] == (collections[k].name@, collections[k].number_of_items as nat));
    assert(keys_distinct(pool)) by {
        assert forall|i: int, j: int| 0 <= i < j < pool.len() implies (#[trigger] pool[i]).0 != (
        #[trigger] pool[j]).0 by {
            assert(counts[i].0 != counts[j].0);
        }
    }
    assert(pool[k].0 == collections[k].name@);
    lemma_key_finds_entry(pool, k);
}

/// Draws `count` new identifiers.
pub fn draw_object_ids(count: usize) -> (ids: Vec<ObjectId>)
    ensures
        ids@.len() == count,
{
    let mut ids: Vec<ObjectId> = Vec::new();
    let mut drawn: usize = 0;
    while drawn < count
        invariant
            drawn <= count,
            ids@.len() == drawn,
        decreases count - drawn,
    {
        ids.push(faker::new_object_id());
        drawn += 1;
    }
    ids
}

/// Whether no identifier occurs twice in `ids_pool`, within one collection or
/// in two.
pub fn has_distinct_ids(ids_pool: &IdPool) -> (distinct: bool)
    ensures
        distinct == ids_distinct(all_ids(ids_pool@)),
{
    let mut ids: Vec<ObjectId> = Vec::new();
    let mut c: usize = 0;
    let count = ids_pool.len();
    while c < count
        invariant
            c <= count,
            count == ids_pool@.len(),
            ids@ == all_ids(ids_pool@.subrange(0, c as int)),
        decreases count - c,
    {
        let collection = ids_pool.value_at(c);
        let mut k: usize = 0;
        while k < collection.len()
            invariant
                c < count,
                count == ids_pool@.len(),
                k <= collection@.len(),
                ids@ == all_ids(ids_pool@.subrange(0, c as int)) + collection@.subrange(
                    0,
                    k as int,
                ),
            decreases collection.len() - k,
        {
            ids.push(collection[k]);
            assert(collection@.subrange(0, k as int).push(collection@[k as int])
                =~= collection@.subrange(0, k + 1));
            k += 1;
        }
        assert(collection@.subrange(0, k as int) =~= collection@);
        assert(ids_pool@.subrange(0, c + 1).drop_last() =~= ids_pool@.subrange(0, c as int));
        c += 1;
    }
    assert(ids_pool@.subrange(0, c as int) =~= ids_pool@);
    let mut seen: HashSet<u128> = HashSet::new();
    let mut i: usize = 0;
    while i < ids.len()
        invariant
            i <= ids@.len(),
            ids@ == all_ids(ids_pool@),
            forall|n: u128|
                seen@.contains(n) <==> exists|j: int|
                    0 <= j < i && number_of((#[trigger] ids@[j]).bytes@) == n,
            forall|a: int, b: int|
                0 <= a < b < i ==> (#[trigger] ids@[a]).bytes@ != (#[trigger] ids@[b]).bytes@,
        decreases ids.len() - i,
    {
        let number = ids[i].number();
        let ghost before = seen@;
        if !seen.insert(number) {
            proof {
                let j = choose|j: int|
                    0 <= j < i && number_of((#[trigger] ids@[j]).bytes@) == number;
                lemma_number_tells_bytes_apart(ids@[j].bytes@, ids@[i as int].bytes@);
            }
            return false;
        }
        proof {
            assert forall|a: int| 0 <= a < i implies (#[trigger] ids@[a]).bytes@
                != ids@[i as int].bytes@ by {
                if ids@[a].bytes@ == ids@[i as int].bytes@ {
                    assert(before.contains(number));
                }
            }
            assert forall|n: u128| seen@.contains(n) <==> exists|j: int|
                0 <= j < i + 1 && number_of((#[trigger] ids@[j]).bytes@) == n by {
                if seen@.contains(n) {
                    if n == number {
                        assert(number_of(ids@[i as int].bytes@) == n);
                    } else {
                        assert(before.contains(n));
                        let j = choose|j: int|
                            0 <= j < i && number_of((#[trigger] ids@[j]).bytes@) == n;
                        assert(0 <= j < i + 1 && number_of(ids@[j].bytes@) == n);
                    }
                }
                if exists|j: int|
                    0 <= j < i + 1 && number_of((#[trigger] ids@[j]).bytes@) == n {
                    let j = choose|j: int|
                        0 <= j < i + 1 && number_of((#[trigger] ids@[j]).bytes@) == n;
                    if j < i {
                        assert(before.contains(n));
                    }
                }
            }
        }
        i += 1;
    }
    true
}

} // verus!
