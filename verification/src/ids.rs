//! Identifiers that tell the members of a collection apart.

use vstd::prelude::*;
use vstd::set_lib::*;

verus! {

/// `id` is the least identifier that is not in `used`.
pub open spec fn is_least_unused(used: Seq<u64>, id: u64) -> bool {
    &&& !used.contains(id)
    &&& forall|smaller: u64| smaller < id ==> #[trigger] used.contains(smaller)
}

/// If all identifiers below `bound` are in `used`, then `used` is at least `bound` long.
proof fn lemma_all_below_used(used: Seq<u64>, bound: int)
    requires
        0 <= bound <= u64::MAX + 1,
        forall|id: u64| id < bound ==> #[trigger] used.contains(id),
    ensures
        bound <= used.len(),
{
    let as_int = used.map_values(|id: u64| id as int);
    lemma_int_range(0, bound);
    assert(set_int_range(0, bound).subset_of(as_int.to_set())) by {
        assert forall|i: int| set_int_range(0, bound).contains(i) implies #[trigger]
        as_int.to_set().contains(i) by {
            assert(used.contains(i as u64));
            let at = choose|at: int| 0 <= at < used.len() && used[at] == i as u64;
            assert(as_int[at] == i);
        }
    }
    lemma_len_subset(set_int_range(0, bound), as_int.to_set());
    as_int.lemma_cardinality_of_set();
}

/// Whether `id` is in `used`.
fn is_used(used: &Vec<u64>, id: u64) -> (is_used: bool)
    ensures
        is_used == used@.contains(id),
{
    for i in 0..used.len()
        invariant
            forall|j: int| 0 <= j < i ==> used@[j] != id,
    {
        if used[i] == id {
            return true;
        }
    }
    false
}

/// The least identifier that is not in `used`.
pub fn unused_id(used: &Vec<u64>) -> (id: u64)
    ensures
        is_least_unused(used@, id),
{
    let len: usize = used.len();
    let mut id: u64 = 0;
    while is_used(used, id)
        invariant
            forall|smaller: u64| smaller < id ==> #[trigger] used@.contains(smaller),
            id <= len,
            len == used@.len(),
        decreases len - id,
    {
        proof {
            assert forall|smaller: u64| smaller < id + 1 implies #[trigger] used@.contains(smaller)
            by {
                assert(smaller < id || smaller == id);
            }
            lemma_all_below_used(used@, id + 1);
        }
        id = id + 1;
    }
    id
}

} // verus!
