//! The ids of a run in ascending order.
//!
//! A hash map hands out its entries in an order of its own. The report lists
//! the activities by ascending id instead, so that it depends on nothing but
//! what the state holds.

use crate::nix_tracker::types::ActivityState;
use std::collections::HashMap;
use vstd::prelude::*;

verus! {

/// Each id is less than those after it.
pub open spec fn ascending(order: Seq<i64>) -> bool {
    forall|i: int, j: int| 0 <= i < j < order.len() ==> order[i] < order[j]
}

/// `order` lists the ids of `ids`, each once, in ascending order.
pub open spec fn is_order_of(order: Seq<i64>, ids: Set<i64>) -> bool {
    ascending(order) && order.to_set() == ids
}

/// The ids of a finite set in ascending order.
pub open spec fn ids_in_order(ids: Set<i64>) -> Seq<i64> {
    choose|order: Seq<i64>| is_order_of(order, ids)
}

/// Where `id` belongs in an ascending list: behind the ids less than it.
pub open spec fn place_of(order: Seq<i64>, id: i64) -> int
    decreases order.len(),
{
    if order.len() == 0 {
        0
    } else if order.last() < id {
        order.len() as int
    } else {
        place_of(order.drop_last(), id)
    }
}

/// The ids before the place of `id` are less than `id`, those from it on are
/// not.
pub proof fn lemma_place_of(order: Seq<i64>, id: i64)
    requires
        ascending(order),
    ensures
        0 <= place_of(order, id) <= order.len(),
        forall|j: int| 0 <= j < place_of(order, id) ==> order[j] < id,
        forall|j: int| place_of(order, id) <= j < order.len() ==> id <= order[j],
    decreases order.len(),
{
    if order.len() == 0 {
    } else if order.last() < id {
        assert forall|j: int| 0 <= j < order.len() implies order[j] < id by {
            if j < order.len() - 1 {
                assert(order[j] < order[order.len() - 1]);
            }
        }
    } else {
        let rest = order.drop_last();
        assert(ascending(rest)) by {
            assert forall|i: int, j: int| 0 <= i < j < rest.len() implies rest[i] < rest[j] by {
                assert(order[i] < order[j]);
            }
        }
        lemma_place_of(rest, id);
        assert forall|j: int| place_of(order, id) <= j < order.len() implies id <= order[j] by {
            if j < rest.len() {
                assert(rest[j] == order[j]);
            }
        }
        assert forall|j: int| 0 <= j < place_of(order, id) implies order[j] < id by {
            assert(rest[j] == order[j]);
        }
    }
}

/// An id that is put at its place into an ascending list leaves the list
/// ascending, with that id more.
pub proof fn lemma_insert_ascending(order: Seq<i64>, at: int, id: i64)
    requires
        ascending(order),
        0 <= at <= order.len(),
        forall|j: int| 0 <= j < at ==> order[j] < id,
        forall|j: int| at <= j < order.len() ==> id < order[j],
    ensures
        ascending(order.insert(at, id)),
        order.insert(at, id).to_set() == order.to_set().insert(id),
{
    let next = order.insert(at, id);
    assert forall|i: int, j: int| 0 <= i < j < next.len() implies next[i] < next[j] by {
        if j < at {
            assert(order[i] < order[j]);
        } else if j == at {
        } else if i < at {
            assert(order[i] < order[j - 1]);
        } else if i == at {
        } else {
            assert(order[i - 1] < order[j - 1]);
        }
    }
    assert forall|x: i64| next.to_set().contains(x) <==> order.to_set().insert(id).contains(
        x,
    ) by {
        if next.to_set().contains(x) {
            let k = choose|k: int| 0 <= k < next.len() && next[k] == x;
            if k < at {
                assert(order[k] == x);
            } else if k > at {
                assert(order[k - 1] == x);
            }
        }
        if order.to_set().insert(id).contains(x) {
            if x == id {
                assert(next[at] == x);
            } else {
                let k = choose|k: int| 0 <= k < order.len() && order[k] == x;
                if k < at {
                    assert(next[k] == x);
                } else {
                    assert(next[k + 1] == x);
                }
            }
        }
    }
    assert(next.to_set() =~= order.to_set().insert(id));
}

/// Two ascending lists of the same ids are the same list.
pub proof fn lemma_order_unique(a: Seq<i64>, b: Seq<i64>)
    requires
        ascending(a),
        ascending(b),
        a.to_set() == b.to_set(),
    ensures
        a == b,
    decreases a.len(),
{
    if a.len() == 0 {
        if b.len() > 0 {
            assert(b.to_set().contains(b[0]));
            assert(a.to_set().contains(b[0]));
        }
        assert(a =~= b);
    } else {
        assert(a.to_set().contains(a.last()));
        assert(b.to_set().contains(a.last()));
        assert(b.len() > 0);
        assert(b.to_set().contains(b.last()));
        assert(a.to_set().contains(b.last()));
        let i = choose|i: int| 0 <= i < b.len() && b[i] == a.last();
        let j = choose|j: int| 0 <= j < a.len() && a[j] == b.last();
        if i < b.len() - 1 {
            assert(b[i] < b[b.len() - 1]);
        }
        if j < a.len() - 1 {
            assert(a[j] < a[a.len() - 1]);
        }
        assert(a.last() == b.last());
        let ra = a.drop_last();
        let rb = b.drop_last();
        assert forall|x: i64| ra.to_set().contains(x) <==> rb.to_set().contains(x) by {
            if ra.to_set().contains(x) {
                let k = choose|k: int| 0 <= k < ra.len() && ra[k] == x;
                assert(a[k] == x);
                assert(a[k] < a[a.len() - 1]);
                assert(b.to_set().contains(x));
                let m = choose|m: int| 0 <= m < b.len() && b[m] == x;
                assert(rb[m] == x);
            }
            if rb.to_set().contains(x) {
                let k = choose|k: int| 0 <= k < rb.len() && rb[k] == x;
                assert(b[k] == x);
                assert(b[k] < b[b.len() - 1]);
                assert(a.to_set().contains(x));
                let m = choose|m: int| 0 <= m < a.len() && a[m] == x;
                assert(ra[m] == x);
            }
        }
        assert(ra.to_set() =~= rb.to_set());
        assert(ascending(ra)) by {
            assert forall|i: int, j: int| 0 <= i < j < ra.len() implies ra[i] < ra[j] by {
                assert(a[i] < a[j]);
            }
        }
        assert(ascending(rb)) by {
            assert forall|i: int, j: int| 0 <= i < j < rb.len() implies rb[i] < rb[j] by {
                assert(b[i] < b[j]);
            }
        }
        lemma_order_unique(ra, rb);
        assert(a =~= ra.push(a.last()));
        assert(b =~= rb.push(b.last()));
    }
}

/// A finite set of ids has its ascending list, which has each id once.
pub proof fn lemma_ids_in_order(ids: Set<i64>)
    requires
        ids.finite(),
    ensures
        is_order_of(ids_in_order(ids), ids),
        ids_in_order(ids).len() == ids.len(),
        ids_in_order(ids).no_duplicates(),
    decreases ids.len(),
{
    if ids.len() == 0 {
        assert(ids =~= Set::empty());
        let order = Seq::<i64>::empty();
        assert(order.to_set() =~= ids);
        assert(is_order_of(order, ids));
    } else {
        let id = ids.choose();
        let rest = ids.remove(id);
        lemma_ids_in_order(rest);
        let order = ids_in_order(rest);
        lemma_place_of(order, id);
        let at = place_of(order, id);
        assert forall|j: int| at <= j < order.len() implies id < order[j] by {
            assert(order.to_set().contains(order[j]));
        }
        lemma_insert_ascending(order, at, id);
        assert(rest.insert(id) =~= ids);
        assert(is_order_of(order.insert(at, id), ids));
    }
    let order = ids_in_order(ids);
    assert(order.no_duplicates()) by {
        assert forall|i: int, j: int|
            0 <= i < order.len() && 0 <= j < order.len() && i != j implies order[i]
            != order[j] by {
            if i < j {
                assert(order[i] < order[j]);
            } else {
                assert(order[j] < order[i]);
            }
        }
    }
    order.unique_seq_to_set();
}

/// The ids under which a map holds an entry, in ascending order.
pub fn sorted_ids(map: &HashMap<i64, ActivityState>) -> (out: Vec<i64>)
    ensures
        out@ == ids_in_order(map@.dom()),
        is_order_of(out@, map@.dom()),
{
    let mut out: Vec<i64> = Vec::new();
    assert(out@.to_set() =~= Set::empty());
    let ghost mut seen: Set<i64> = Set::empty();
    for (id, _entry) in it: map.iter()
        invariant
            ascending(out@),
            out@.to_set() == seen,
            forall|j: int| 0 <= j < it.index() ==> seen.contains(*(#[trigger] it.seq()[j]).0),
            forall|id: i64| seen.contains(id) ==> map@.contains_key(id),
            it.seq().len() == map@.dom().len(),
            forall|j: int|
                0 <= j < it.seq().len() ==> map@.contains_key(*(#[trigger] it.seq()[j]).0),
            forall|id: i64| #[trigger]
                map@.contains_key(id) ==> it.seq().contains((&id, &map@[id])),
    {
        let place = place_in(&out, *id);
        if place == out.len() || out[place] != *id {
            proof {
                lemma_insert_ascending(out@, place as int, *id);
            }
            out.insert(place, *id);
        } else {
            assert(out@.to_set().contains(out@[place as int]));
        }
        proof {
            seen = seen.insert(*id);
        }
    }
    assert(forall|id: i64| map@.contains_key(id) ==> seen.contains(id));
    assert(seen =~= map@.dom());
    proof {
        lemma_ids_in_order(map@.dom());
        lemma_order_unique(out@, ids_in_order(map@.dom()));
    }
    out
}

/// The place of `id` in an ascending list.
fn place_in(order: &Vec<i64>, id: i64) -> (out: usize)
    requires
        ascending(order@),
    ensures
        out == place_of(order@, id),
        out <= order.len(),
        forall|j: int| 0 <= j < out ==> order@[j] < id,
        forall|j: int| out <= j < order.len() ==> id <= order@[j],
{
    proof {
        lemma_place_of(order@, id);
    }
    let mut at: usize = order.len();
    assert(order@.take(at as int) =~= order@);
    while at > 0 && order[at - 1] >= id
        invariant
            at <= order.len(),
            ascending(order@),
            place_of(order@, id) == place_of(order@.take(at as int), id),
        decreases at,
    {
        proof {
            let part = order@.take(at as int);
            assert(part.last() == order@[at - 1]);
            assert(part.drop_last() =~= order@.take(at - 1));
        }
        at -= 1;
    }
    proof {
        let part = order@.take(at as int);
        if at > 0 {
            assert(part.last() == order@[at - 1]);
        }
    }
    at
}

} // verus!
