use vstd::prelude::*;
use crate::model::{
    Data,
    ShoppingListItem,
    add_item_post,
    bumps_only,
    first_tombstone,
    new_item_slot,
    replace_item_post,
};

verus! {

/// A waiter that holds the current generation of list `id` is released by the
/// next accepted mutation of that list: afterwards the generations differ.
pub proof fn lemma_mutation_releases_waiter(before: Data, after: Data, id: int, known: i32)
    requires
        bumps_only(before, after, id),
        before.shopping_lists@[id].generation == known,
    ensures
        after.shopping_lists@[id].generation != known,
{
}

/// A mutation of another list leaves the generation of list `id` as it was,
/// so a waiter on `id` keeps waiting.
pub proof fn lemma_other_mutation_keeps_waiter(before: Data, after: Data, changed: int, id: int)
    requires
        bumps_only(before, after, changed),
        0 <= id < before.shopping_lists@.len(),
        id != changed,
    ensures
        after.shopping_lists@[id] == before.shopping_lists@[id],
        after.shopping_lists@[id].generation == before.shopping_lists@[id].generation,
{
}

/// When list `id` holds a tombstone, adding an item returns the index of the
/// first tombstone and the list keeps its length; replacing the item at the
/// returned index then changes that very slot and no other.
pub proof fn lemma_tombstone_reuse(
    d0: Data,
    d1: Data,
    d2: Data,
    id: int,
    slot: int,
    item: ShoppingListItem,
)
    requires
        first_tombstone(d0.shopping_lists@[id].items@) is Some,
        add_item_post(d0, d1, id, slot),
        replace_item_post(d1, d2, id, slot, item),
    ensures
        first_tombstone(d0.shopping_lists@[id].items@) == Some(slot),
        d2.shopping_lists@[id].items@.len() == d0.shopping_lists@[id].items@.len(),
        d2.shopping_lists@[id].items@[slot] == item,
        forall|k: int|
            0 <= k < d0.shopping_lists@[id].items@.len() && k != slot
                ==> #[trigger] d2.shopping_lists@[id].items@[k] == d0.shopping_lists@[id].items@[k],
        d2.shopping_lists@[id].generation == d0.shopping_lists@[id].generation + 2,
{
    crate::model::lemma_first_tombstone_from(d0.shopping_lists@[id].items@, 0);
    assert(slot == new_item_slot(d0.shopping_lists@[id].items@));
    let items2 = d2.shopping_lists@[id].items@;
    let items1 = d1.shopping_lists@[id].items@;
    let items0 = d0.shopping_lists@[id].items@;
    assert forall|k: int| 0 <= k < items0.len() && k != slot implies #[trigger] items2[k]
        == items0[k] by {
        assert(items2[k] == items1[k]);
    }
}

} // verus!
