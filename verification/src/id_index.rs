//! An index from entity ids to positions in a vector, where an id that occurs more than
//! once is mapped to its last occurrence (what rebuilding the index in order produces).
use vstd::prelude::*;

verus! {

/// `i` is the last position of `id` in `ids`.
pub open spec fn is_last_position(ids: Seq<u32>, id: u32, i: int) -> bool {
    &&& 0 <= i < ids.len()
    &&& ids[i] == id
    &&& forall|j: int| i < j < ids.len() ==> ids[j] != id
}

/// Some position of `ids` holds `id`.
pub open spec fn contains_id(ids: Seq<u32>, id: u32) -> bool {
    exists|i: int| 0 <= i < ids.len() && ids[i] == id
}

/// The last position of `id` in `ids` (meaningful when `contains_id(ids, id)`).
pub open spec fn last_position(ids: Seq<u32>, id: u32) -> int {
    choose|i: int| is_last_position(ids, id, i)
}

/// The map sends exactly the ids of `ids` to their last positions.
pub open spec fn index_matches(ids: Seq<u32>, m: Map<u32, usize>) -> bool {
    &&& forall|i: int| 0 <= i < ids.len() ==> #[trigger] m.contains_key(ids[i])
    &&& forall|k: u32| #[trigger] m.contains_key(k) ==> is_last_position(ids, k, m[k] as int)
}

/// Every id is below `next`.
pub open spec fn ids_below(ids: Seq<u32>, next: u32) -> bool {
    forall|i: int| 0 <= i < ids.len() ==> #[trigger] ids[i] < next
}

/// One more than the largest id, or 1 when there are none (`max().unwrap_or(0) + 1`).
pub open spec fn max_id_plus_one(ids: Seq<u32>) -> int
    decreases ids.len(),
{
    if ids.len() == 0 {
        1
    } else {
        let rest = max_id_plus_one(ids.drop_last());
        if ids.last() + 1 > rest {
            ids.last() + 1
        } else {
            rest
        }
    }
}

pub proof fn lemma_last_position_unique(ids: Seq<u32>, id: u32, i: int, j: int)
    requires
        is_last_position(ids, id, i),
        is_last_position(ids, id, j),
    ensures
        i == j,
{
}

/// Where the `j`-th id is `j`, id `i` is found at position `i`.
pub proof fn lemma_sequential_ids(ids: Seq<u32>, i: int)
    requires
        forall|j: int| 0 <= j < ids.len() ==> ids[j] == j,
        0 <= i < ids.len(),
    ensures
        contains_id(ids, i as u32),
        last_position(ids, i as u32) == i,
{
    assert(is_last_position(ids, i as u32, i));
    let c = last_position(ids, i as u32);
    lemma_last_position_unique(ids, i as u32, c, i);
}

/// An id that occurs has a last position.
pub proof fn lemma_last_position_exists(ids: Seq<u32>, id: u32)
    requires
        contains_id(ids, id),
    ensures
        is_last_position(ids, id, last_position(ids, id)),
    decreases ids.len(),
{
    if ids.last() == id {
        assert(is_last_position(ids, id, ids.len() - 1));
    } else {
        let k = choose|k: int| 0 <= k < ids.len() && ids[k] == id;
        let rest = ids.drop_last();
        assert(rest[k] == id);
        lemma_last_position_exists(rest, id);
        let p = last_position(rest, id);
        assert(is_last_position(ids, id, p)) by {
            assert forall|j: int| p < j < ids.len() implies ids[j] != id by {
                if j < ids.len() - 1 {
                    assert(rest[j] == ids[j]);
                }
            }
        }
    }
}

pub proof fn lemma_index_lookup(ids: Seq<u32>, m: Map<u32, usize>, id: u32)
    requires
        index_matches(ids, m),
    ensures
        m.contains_key(id) <==> contains_id(ids, id),
        m.contains_key(id) ==> last_position(ids, id) == m[id] as int && is_last_position(
            ids,
            id,
            m[id] as int,
        ),
{
    if contains_id(ids, id) {
        let i = choose|i: int| 0 <= i < ids.len() && ids[i] == id;
        assert(m.contains_key(ids[i]));
    }
    if m.contains_key(id) {
        assert(is_last_position(ids, id, m[id] as int));
        let c = last_position(ids, id);
        lemma_last_position_unique(ids, id, c, m[id] as int);
    }
}

/// Adding position `k` to an index of the first `k` ids indexes the first `k + 1`.
pub proof fn lemma_index_push(ids: Seq<u32>, m: Map<u32, usize>, k: int)
    requires
        0 <= k < ids.len(),
        k <= usize::MAX,
        index_matches(ids.subrange(0, k), m),
    ensures
        index_matches(ids.subrange(0, k + 1), m.insert(ids[k], k as usize)),
{
    let s0 = ids.subrange(0, k);
    let s1 = ids.subrange(0, k + 1);
    let m1 = m.insert(ids[k], k as usize);
    assert forall|i: int| 0 <= i < s1.len() implies #[trigger] m1.contains_key(s1[i]) by {
        if i < k {
            assert(s0[i] == s1[i]);
            assert(m.contains_key(s0[i]));
        }
    }
    assert forall|key: u32| #[trigger] m1.contains_key(key) implies is_last_position(
        s1,
        key,
        m1[key] as int,
    ) by {
        if key != ids[k] {
            assert(m.contains_key(key));
            assert(is_last_position(s0, key, m[key] as int));
            let p = m[key] as int;
            assert(s1[p] == s0[p]);
            assert forall|j: int| p < j < s1.len() implies s1[j] != key by {
                if j < k {
                    assert(s1[j] == s0[j]);
                }
            }
        }
    }
}

/// The running maximum grows by one step.
pub proof fn lemma_max_id_step(ids: Seq<u32>, k: int)
    requires
        0 <= k < ids.len(),
    ensures
        max_id_plus_one(ids.subrange(0, k + 1)) == (if ids[k] + 1 > max_id_plus_one(
            ids.subrange(0, k),
        ) {
            ids[k] + 1
        } else {
            max_id_plus_one(ids.subrange(0, k))
        }),
{
    assert(ids.subrange(0, k + 1).drop_last() =~= ids.subrange(0, k));
}

/// Every id is below `max_id_plus_one`.
pub proof fn lemma_max_id_bounds(ids: Seq<u32>)
    ensures
        max_id_plus_one(ids) >= 1,
        forall|i: int| 0 <= i < ids.len() ==> ids[i] < max_id_plus_one(ids),
    decreases ids.len(),
{
    if ids.len() > 0 {
        lemma_max_id_bounds(ids.drop_last());
        assert forall|i: int| 0 <= i < ids.len() implies ids[i] < max_id_plus_one(ids) by {
            if i < ids.len() - 1 {
                assert(ids.drop_last()[i] == ids[i]);
            }
        }
    }
}

} // verus!
