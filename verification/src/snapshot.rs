use vstd::prelude::*;
use crate::swap::Swap;

verus! {

/// The swaps that a list of `(id, swap)` entries describes. Where an id occurs
/// twice the later entry counts.
pub open spec fn swaps_of(entries: Seq<(u32, Swap)>) -> Map<u32, Swap>
    decreases entries.len(),
{
    if entries.len() == 0 {
        Map::empty()
    } else {
        swaps_of(entries.drop_last()).insert(entries.last().0, entries.last().1)
    }
}

/// No id occurs twice in the list.
pub open spec fn distinct_ids(entries: Seq<(u32, Swap)>) -> bool {
    forall|i: int, j: int| 0 <= i < j < entries.len() ==> entries[i].0 != entries[j].0
}

/// The ids of the list rise strictly.
pub open spec fn ascending_ids(entries: Seq<(u32, Swap)>) -> bool {
    forall|i: int, j: int| 0 <= i < j < entries.len() ==> entries[i].0 < entries[j].0
}

/// The ids under which `swaps_of` holds a swap are those that occur in the list.
pub proof fn lemma_swaps_of_ids(entries: Seq<(u32, Swap)>, id: u32)
    ensures
        swaps_of(entries).contains_key(id) <==> exists|i: int|
            0 <= i < entries.len() && (#[trigger] entries[i]).0 == id,
    decreases entries.len(),
{
    if entries.len() > 0 {
        let front = entries.drop_last();
        lemma_swaps_of_ids(front, id);
        if swaps_of(entries).contains_key(id) {
            if entries.last().0 == id {
                assert(entries[entries.len() - 1].0 == id);
            } else {
                let i = choose|i: int| 0 <= i < front.len() && (#[trigger] front[i]).0 == id;
                assert(entries[i].0 == id);
            }
        }
        if exists|i: int| 0 <= i < entries.len() && (#[trigger] entries[i]).0 == id {
            let i = choose|i: int| 0 <= i < entries.len() && (#[trigger] entries[i]).0 == id;
            if i < front.len() {
                assert(front[i].0 == id);
            }
        }
    }
}

/// Where no id occurs twice, `swaps_of` holds under each id the swap listed with it.
pub proof fn lemma_swaps_of_entry(entries: Seq<(u32, Swap)>, i: int)
    requires
        distinct_ids(entries),
        0 <= i < entries.len(),
    ensures
        swaps_of(entries).contains_key(entries[i].0),
        swaps_of(entries)[entries[i].0] == entries[i].1,
    decreases entries.len(),
{
    let front = entries.drop_last();
    if i < front.len() {
        assert(distinct_ids(front)) by {
            assert forall|a: int, b: int| 0 <= a < b < front.len() implies front[a].0 != front[b].0 by {
                assert(entries[a].0 != entries[b].0);
            }
        }
        lemma_swaps_of_entry(front, i);
        assert(front[i] == entries[i]);
        assert(entries[i].0 != entries[entries.len() - 1].0);
    }
}

/// Adding an entry at the end stores its swap under its id.
pub proof fn lemma_swaps_of_push(entries: Seq<(u32, Swap)>, id: u32, swap: Swap)
    ensures
        swaps_of(entries.push((id, swap))) == swaps_of(entries).insert(id, swap),
{
    assert(entries.push((id, swap)).drop_last() =~= entries);
}

} // verus!
