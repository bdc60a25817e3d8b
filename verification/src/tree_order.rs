//! Canonical sibling order of Volumes and Chapters in the manuscript tree.

use vstd::prelude::*;

verus! {

broadcast use {vstd::seq_lib::group_to_multiset_ensures, vstd::multiset::group_multiset_axioms};

/// The sibling order after the sibling at zero-based position `from` moves to
/// zero-based position `to`: it leaves its place, and the others close up
/// around its new place.
pub open spec fn moved_order<T>(ids: Seq<T>, from: int, to: int) -> Seq<T> {
    ids.remove(from).insert(to, ids[from])
}

/// Law: moving a sibling keeps exactly the same siblings.
pub proof fn lemma_move_keeps_siblings<T>(ids: Seq<T>, from: int, to: int)
    requires
        0 <= from < ids.len(),
        0 <= to < ids.len(),
    ensures
        moved_order(ids, from, to).to_multiset() == ids.to_multiset(),
        moved_order(ids, from, to).len() == ids.len(),
        moved_order(ids, from, to)[to] == ids[from],
{
    let rest = ids.remove(from);
    assert(rest.insert(to, ids[from]).to_multiset() == rest.to_multiset().insert(ids[from]));
    assert(rest.to_multiset() == ids.to_multiset().remove(ids[from]));
    assert(ids.to_multiset().count(ids[from]) > 0) by {
        assert(ids.contains(ids[from]));
    }
    assert(ids.to_multiset().remove(ids[from]).insert(ids[from]) =~= ids.to_multiset());
    rest.insert_ensures(to, ids[from]);
}

/// Law: moving the sibling back from its new place to its old place restores
/// the prior sibling order; Author Undo of an order change relies on it.
pub proof fn lemma_move_back_restores<T>(ids: Seq<T>, from: int, to: int)
    requires
        0 <= from < ids.len(),
        0 <= to < ids.len(),
    ensures
        moved_order(moved_order(ids, from, to), to, from) == ids,
{
    let rest = ids.remove(from);
    let moved = rest.insert(to, ids[from]);
    rest.insert_ensures(to, ids[from]);
    ids.remove_ensures(from);
    assert(moved[to] == ids[from]);
    assert(moved.remove(to) =~= rest) by {
        moved.remove_ensures(to);
    }
    let back = moved.remove(to).insert(from, moved[to]);
    rest.insert_ensures(from, ids[from]);
    assert(back =~= ids);
}

/// The siblings of a reorder, each with the one-based rank that it takes,
/// when the sibling at one-based `current_order` moves to one-based `order`;
/// `None` when the order does not change and no rank is rewritten.
pub fn reordered_sibling_ranks(
    ordered_ids: &Vec<String>,
    current_order: u64,
    order: u64,
) -> (ranks: Option<Vec<(String, u64)>>)
    requires
        1 <= current_order <= ordered_ids.len(),
        1 <= order <= ordered_ids.len(),
    ensures
        current_order == order <==> ranks is None,
        ranks matches Some(r) ==> {
            &&& r@.len() == ordered_ids@.len()
            &&& forall|i: int|
                0 <= i < r@.len() ==> #[trigger] r@[i] == (
                moved_order(ordered_ids@, current_order - 1, order - 1)[i],
                (i + 1) as u64,
            )
        },
{
    if current_order == order {
        return None;
    }
    let mut ids = ordered_ids.clone();
    assert(ids@ =~= ordered_ids@);
    let moved = ids.remove((current_order - 1) as usize);
    ids.insert((order - 1) as usize, moved);
    let ghost target = moved_order(ordered_ids@, current_order - 1, order - 1);
    assert(ids@ == target);
    let mut ranks: Vec<(String, u64)> = Vec::new();
    let mut index: usize = 0;
    while index < ids.len()
        invariant
            index <= ids@.len(),
            ids@ == target,
            target.len() == ordered_ids@.len(),
            ranks@.len() == index,
            forall|i: int| 0 <= i < index ==> #[trigger] ranks@[i] == (target[i], (i + 1) as u64),
        decreases ids@.len() - index,
    {
        let id = ids[index].clone();
        ranks.push((id, (index + 1) as u64));
        index = index + 1;
    }
    Some(ranks)
}

/// Storage keys in ascending order.
pub open spec fn keys_ascending(keys: Seq<i64>) -> bool {
    forall|i: int, j: int| 0 <= i <= j < keys.len() ==> keys[i] <= keys[j]
}

/// The same keys in ascending order (the order `sort_unstable` gives).
pub fn sorted_storage_keys(keys: &Vec<i64>) -> (sorted: Vec<i64>)
    ensures
        keys_ascending(sorted@),
        sorted@.to_multiset() == keys@.to_multiset(),
{
    let mut sorted: Vec<i64> = Vec::new();
    let mut i: usize = 0;
    while i < keys.len()
        invariant
            i <= keys@.len(),
            keys_ascending(sorted@),
            sorted@.to_multiset() == keys@.take(i as int).to_multiset(),
        decreases keys@.len() - i,
    {
        let key = keys[i];
        let mut p: usize = 0;
        while p < sorted.len() && sorted[p] <= key
            invariant
                p <= sorted@.len(),
                forall|k: int| 0 <= k < p ==> sorted@[k] <= key,
            decreases sorted@.len() - p,
        {
            p = p + 1;
        }
        let ghost before = sorted@;
        sorted.insert(p, key);
        proof {
            before.insert_ensures(p as int, key);
        }
        assert(keys_ascending(sorted@)) by {
            assert forall|a: int, b: int| 0 <= a <= b < sorted@.len() implies sorted@[a]
                <= sorted@[b] by {
                if p < before.len() {
                    assert(before[p as int] > key);
                }
                if a < p && b > p {
                    assert(sorted@[b] == before[b - 1]);
                }
                if a > p {
                    assert(sorted@[a] == before[a - 1]);
                    assert(sorted@[b] == before[b - 1]);
                }
                if a == p && b > p {
                    assert(sorted@[b] == before[b - 1]);
                    assert(before[p as int] <= before[b - 1]);
                }
            }
        }
        assert(keys@.take(i + 1) =~= keys@.take(i as int).push(key));
        i = i + 1;
    }
    assert(keys@.take(keys@.len() as int) =~= keys@);
    sorted
}

/// The storage key each live Volume gets in the new order: the Volumes'
/// own prior keys, ascending, handed out along `ordered_ids`. Keys of removed
/// Volumes are not among them, so their slots stay where they were.
pub fn volume_storage_assignment(ordered_ids: &Vec<String>, prior_keys: &Vec<i64>) -> (assigned:
    Vec<(String, i64)>)
    requires
        ordered_ids@.len() == prior_keys@.len(),
    ensures
        assigned@.len() == ordered_ids@.len(),
        forall|i: int| 0 <= i < assigned@.len() ==> (#[trigger] assigned@[i]).0 == ordered_ids@[i],
        keys_ascending(assigned@.map_values(|pair: (String, i64)| pair.1)),
        assigned@.map_values(|pair: (String, i64)| pair.1).to_multiset()
            == prior_keys@.to_multiset(),
{
    let sorted = sorted_storage_keys(prior_keys);
    proof {
        sorted@.to_multiset_ensures();
        prior_keys@.to_multiset_ensures();
    }
    let mut assigned: Vec<(String, i64)> = Vec::new();
    let mut i: usize = 0;
    while i < ordered_ids.len()
        invariant
            i <= ordered_ids@.len(),
            ordered_ids@.len() == sorted@.len(),
            assigned@.len() == i,
            forall|k: int| 0 <= k < i ==> (#[trigger] assigned@[k]) == (ordered_ids@[k], sorted@[k]),
        decreases ordered_ids@.len() - i,
    {
        assigned.push((ordered_ids[i].clone(), sorted[i]));
        i = i + 1;
    }
    assert(assigned@.map_values(|pair: (String, i64)| pair.1) =~= sorted@);
    assigned
}

/// The message of a Volume reorder whose locked Volumes are not the ones it
/// was asked to order.
pub open spec fn live_volume_set_changed() -> Seq<char> {
    "live Volume set changed under FOR UPDATE"@
}

/// The storage keys of a Volume reorder. `moved_keys` are the prior keys of
/// the Volumes that the park statement found live and moved out of the way;
/// when their number is not that of `ordered_ids`, some id was no live
/// Volume of the scope and the reorder is refused. Otherwise each Volume
/// gets, along `ordered_ids`, the moved keys in ascending order.
pub fn volume_storage_order(ordered_ids: &Vec<String>, moved_keys: &Vec<i64>) -> (assigned: Result<
    Vec<(String, i64)>,
    String,
>)
    ensures
        ordered_ids@.len() != moved_keys@.len() <==> assigned is Err,
        assigned matches Err(message) ==> message@ == live_volume_set_changed(),
        assigned matches Ok(pairs) ==> {
            &&& pairs@.len() == ordered_ids@.len()
            &&& forall|i: int| 0 <= i < pairs@.len() ==> (#[trigger] pairs@[i]).0 == ordered_ids@[i]
            &&& keys_ascending(pairs@.map_values(|pair: (String, i64)| pair.1))
            &&& pairs@.map_values(|pair: (String, i64)| pair.1).to_multiset()
                == moved_keys@.to_multiset()
        },
{
    if ordered_ids.len() != moved_keys.len() {
        return Err(String::from_str("live Volume set changed under FOR UPDATE"));
    }
    Ok(volume_storage_assignment(ordered_ids, moved_keys))
}

/// Checks the row count of the statement that writes the new keys: every
/// ordered Volume must take its key.
pub fn check_volume_storage_update(updated: u64, ordered: usize) -> (checked: Result<(), String>)
    ensures
        updated == ordered <==> checked is Ok,
        checked matches Err(message) ==> message@ == live_volume_set_changed(),
{
    if updated != ordered as u64 {
        return Err(String::from_str("live Volume set changed under FOR UPDATE"));
    }
    Ok(())
}

} // verus!
