use vstd::prelude::*;

verus! {

/// One entry of a list. Its identity is its slot index in the owning list;
/// `deleted` marks a tombstone whose slot may be reused.
#[derive(Clone, Debug, PartialEq, Eq)]
pub struct ShoppingListItem {
    pub singular: String,
    pub plural: String,
    pub category: String,
    pub amount: i32,
    pub done: bool,
    pub deleted: bool,
}

/// A named list of items with its change counter.
#[derive(Clone, Debug, PartialEq, Eq)]
pub struct ShoppingList {
    pub generation: i32,
    pub name: String,
    pub items: Vec<ShoppingListItem>,
    pub deleted: bool,
}

/// The whole state of one running instance.
#[derive(Clone, Debug, PartialEq, Eq)]
pub struct Data {
    pub shopping_lists: Vec<ShoppingList>,
}

/// What the overview of all lists shows of one list.
#[derive(Clone, Debug, PartialEq, Eq)]
pub struct ListSummary {
    pub name: String,
    pub deleted: bool,
}

/// A list id or an item id that lies outside its sequence.
#[derive(Debug, Clone, Copy, PartialEq, Eq, Structural)]
pub enum NotFound {
    NotFound,
}

/// The empty item that `add_item` places in its slot.
pub open spec fn blank_item_spec(it: ShoppingListItem) -> bool {
    &&& it.singular@ == Seq::<char>::empty()
    &&& it.plural@ == Seq::<char>::empty()
    &&& it.category@ == Seq::<char>::empty()
    &&& it.amount == 0
    &&& !it.done
    &&& !it.deleted
}

/// The list with its generation counter raised by one.
pub open spec fn bumped(l: ShoppingList) -> ShoppingList {
    ShoppingList { generation: (l.generation + 1) as i32, ..l }
}

/// A mutation of list `id` may raise its counter: it is below the largest `i32`.
pub open spec fn can_bump(d: Data, id: int) -> bool {
    0 <= id < d.shopping_lists@.len() ==> d.shopping_lists@[id].generation < i32::MAX
}

/// Index of the first tombstoned item at or after `from`, if any.
pub open spec fn first_tombstone_from(items: Seq<ShoppingListItem>, from: int) -> Option<int>
    decreases items.len() - from,
{
    if from < 0 || from >= items.len() {
        None
    } else if items[from].deleted {
        Some(from)
    } else {
        first_tombstone_from(items, from + 1)
    }
}

/// Index of the first tombstoned item of the sequence, if any.
pub open spec fn first_tombstone(items: Seq<ShoppingListItem>) -> Option<int> {
    first_tombstone_from(items, 0)
}

/// The slot that a new item takes: the first tombstone, else one past the end.
pub open spec fn new_item_slot(items: Seq<ShoppingListItem>) -> int {
    match first_tombstone(items) {
        Some(i) => i,
        None => items.len() as int,
    }
}

/// `after` is `before` with its category set to `new_name` where it was `old_name`.
pub open spec fn recategorized(
    before: ShoppingListItem,
    after: ShoppingListItem,
    old_name: String,
    new_name: String,
) -> bool {
    &&& after.singular == before.singular
    &&& after.plural == before.plural
    &&& after.amount == before.amount
    &&& after.done == before.done
    &&& after.deleted == before.deleted
    &&& if before.category@ == old_name@ {
        after.category == new_name
    } else {
        after.category == before.category
    }
}

/// The two lists agree in every field.
pub open spec fn same_list(a: ShoppingList, b: ShoppingList) -> bool {
    &&& a.generation == b.generation
    &&& a.name == b.name
    &&& a.items@ == b.items@
    &&& a.deleted == b.deleted
}

/// Every list but `id` is kept; list `id` has its generation raised by one.
pub open spec fn bumps_only(before: Data, after: Data, id: int) -> bool {
    &&& 0 <= id < before.shopping_lists@.len()
    &&& after.shopping_lists@.len() == before.shopping_lists@.len()
    &&& after.shopping_lists@[id].generation == before.shopping_lists@[id].generation + 1
    &&& forall|j: int|
        0 <= j < before.shopping_lists@.len() && j != id ==> #[trigger] after.shopping_lists@[j]
            == before.shopping_lists@[j]
}

/// Outcome of setting the name and the deleted flag of list `id`.
pub open spec fn set_list_meta_post(
    before: Data,
    after: Data,
    id: int,
    name: String,
    deleted: bool,
) -> bool {
    &&& bumps_only(before, after, id)
    &&& after.shopping_lists@[id].name == name
    &&& after.shopping_lists@[id].deleted == deleted
    &&& after.shopping_lists@[id].items == before.shopping_lists@[id].items
}

/// Outcome of adding an item to list `id` in slot `slot`.
pub open spec fn add_item_post(before: Data, after: Data, id: int, slot: int) -> bool {
    let old_items = before.shopping_lists@[id].items@;
    let new_items = after.shopping_lists@[id].items@;
    &&& bumps_only(before, after, id)
    &&& after.shopping_lists@[id].name == before.shopping_lists@[id].name
    &&& after.shopping_lists@[id].deleted == before.shopping_lists@[id].deleted
    &&& slot == new_item_slot(old_items)
    &&& new_items.len() == if slot < old_items.len() {
        old_items.len()
    } else {
        old_items.len() + 1
    }
    &&& blank_item_spec(new_items[slot])
    &&& forall|k: int| 0 <= k < old_items.len() && k != slot ==> #[trigger] new_items[k] == old_items[k]
}

/// Outcome of replacing item `item_id` of list `id` by `item`.
pub open spec fn replace_item_post(
    before: Data,
    after: Data,
    id: int,
    item_id: int,
    item: ShoppingListItem,
) -> bool {
    &&& bumps_only(before, after, id)
    &&& 0 <= item_id < before.shopping_lists@[id].items@.len()
    &&& after.shopping_lists@[id].name == before.shopping_lists@[id].name
    &&& after.shopping_lists@[id].deleted == before.shopping_lists@[id].deleted
    &&& after.shopping_lists@[id].items@ == before.shopping_lists@[id].items@.update(item_id, item)
}

/// Outcome of renaming category `old_name` to `new_name` in list `id`.
pub open spec fn rename_category_post(
    before: Data,
    after: Data,
    id: int,
    old_name: String,
    new_name: String,
) -> bool {
    let old_items = before.shopping_lists@[id].items@;
    let new_items = after.shopping_lists@[id].items@;
    &&& bumps_only(before, after, id)
    &&& after.shopping_lists@[id].name == before.shopping_lists@[id].name
    &&& after.shopping_lists@[id].deleted == before.shopping_lists@[id].deleted
    &&& new_items.len() == old_items.len()
    &&& forall|k: int|
        0 <= k < old_items.len() ==> recategorized(
            old_items[k],
            #[trigger] new_items[k],
            old_name,
            new_name,
        )
}

impl ShoppingListItem {
    /// A blank item: empty texts, amount zero, neither done nor deleted.
    pub fn blank() -> (r: ShoppingListItem)
        ensures
            blank_item_spec(r),
    {
        ShoppingListItem {
            singular: String::new(),
            plural: String::new(),
            category: String::new(),
            amount: 0,
            done: false,
            deleted: false,
        }
    }

    /// A field-by-field copy of the item.
    pub fn duplicate(&self) -> (r: ShoppingListItem)
        ensures
            r == *self,
    {
        ShoppingListItem {
            singular: self.singular.clone(),
            plural: self.plural.clone(),
            category: self.category.clone(),
            amount: self.amount,
            done: self.done,
            deleted: self.deleted,
        }
    }
}

impl ShoppingList {
    /// An empty, not deleted list with generation zero.
    pub fn new(name: String) -> (r: ShoppingList)
        ensures
            r.generation == 0,
            r.name == name,
            r.items@.len() == 0,
            !r.deleted,
    {
        ShoppingList { generation: 0, name, items: Vec::new(), deleted: false }
    }

    /// A copy of the list with all its items.
    pub fn duplicate(&self) -> (r: ShoppingList)
        ensures
            r.generation == self.generation,
            r.name == self.name,
            r.items@ == self.items@,
            r.deleted == self.deleted,
    {
        let mut items: Vec<ShoppingListItem> = Vec::new();
        let mut i: usize = 0;
        while i < self.items.len()
            invariant
                i <= self.items@.len(),
                items@ == self.items@.subrange(0, i as int),
            decreases self.items@.len() - i,
        {
            items.push(self.items[i].duplicate());
            i = i + 1;
            assert(items@ =~= self.items@.subrange(0, i as int));
        }
        assert(items@ =~= self.items@);
        ShoppingList {
            generation: self.generation,
            name: self.name.clone(),
            items,
            deleted: self.deleted,
        }
    }
}

impl Data {
    /// A dataset holding the given lists.
    pub fn new(shopping_lists: Vec<ShoppingList>) -> (r: Data)
        ensures
            r.shopping_lists == shopping_lists,
    {
        Data { shopping_lists }
    }

    /// The state of a fresh instance: one empty list named `name`.
    pub fn initial(name: String) -> (r: Data)
        ensures
            r.shopping_lists@.len() == 1,
            r.shopping_lists@[0].generation == 0,
            r.shopping_lists@[0].name == name,
            r.shopping_lists@[0].items@.len() == 0,
            !r.shopping_lists@[0].deleted,
    {
        let mut lists: Vec<ShoppingList> = Vec::new();
        lists.push(ShoppingList::new(name));
        Data { shopping_lists: lists }
    }

    /// Number of lists, deleted ones included.
    pub fn list_count(&self) -> (r: usize)
        ensures
            r == self.shopping_lists@.len(),
    {
        self.shopping_lists.len()
    }

    /// Name and deleted flag of every list, in stored order.
    pub fn list_summaries(&self) -> (r: Vec<ListSummary>)
        ensures
            r@.len() == self.shopping_lists@.len(),
            forall|j: int|
                0 <= j < r@.len() ==> (#[trigger] r@[j]).name == self.shopping_lists@[j].name
                    && r@[j].deleted == self.shopping_lists@[j].deleted,
    {
        let mut r: Vec<ListSummary> = Vec::new();
        let mut i: usize = 0;
        while i < self.shopping_lists.len()
            invariant
                i <= self.shopping_lists@.len(),
                r@.len() == i,
                forall|j: int|
                    0 <= j < i ==> (#[trigger] r@[j]).name == self.shopping_lists@[j].name
                        && r@[j].deleted == self.shopping_lists@[j].deleted,
            decreases self.shopping_lists@.len() - i,
        {
            let list = &self.shopping_lists[i];
            let ghost prev = r@;
            r.push(ListSummary { name: list.name.clone(), deleted: list.deleted });
            assert(forall|j: int| 0 <= j < i ==> r@[j] == prev[j]);
            i = i + 1;
        }
        r
    }

    /// Sets the name and the deleted flag of list `id` and raises its generation.
    pub fn set_list_meta(&mut self, id: usize, name: String, deleted: bool) -> (r: Result<
        (),
        NotFound,
    >)
        requires
            can_bump(*old(self), id as int),
        ensures
            r is Ok <==> id < old(self).shopping_lists@.len(),
            r is Ok ==> set_list_meta_post(*old(self), *final(self), id as int, name, deleted),
            r is Err ==> *final(self) == *old(self),
    {
        if id >= self.shopping_lists.len() {
            return Err(NotFound::NotFound);
        }
        let list = &mut self.shopping_lists[id];
        list.name = name;
        list.deleted = deleted;
        list.generation = list.generation + 1;
        Ok(())
    }
    /// Places a blank item in list `id`, in its first tombstoned slot or else
    /// at its end, raises the generation and returns the slot's index.
    pub fn add_item(&mut self, id: usize) -> (r: Result<usize, NotFound>)
        requires
            can_bump(*old(self), id as int),
        ensures
            r is Ok <==> id < old(self).shopping_lists@.len(),
            r matches Ok(slot) ==> add_item_post(*old(self), *final(self), id as int, slot as int),
            r is Err ==> *final(self) == *old(self),
    {
        if id >= self.shopping_lists.len() {
            return Err(NotFound::NotFound);
        }
        let slot = first_tombstone_index(&self.shopping_lists[id].items);
        proof {
            lemma_first_tombstone_from(self.shopping_lists@[id as int].items@, 0);
        }
        let list = &mut self.shopping_lists[id];
        let item_id = match slot {
            Some(k) => {
                list.items[k] = ShoppingListItem::blank();
                k
            },
            None => {
                list.items.push(ShoppingListItem::blank());
                list.items.len() - 1
            },
        };
        list.generation = list.generation + 1;
        Ok(item_id)
    }

    /// Replaces item `item_id` of list `id` by `item` and raises the generation.
    pub fn replace_item(&mut self, id: usize, item_id: usize, item: ShoppingListItem) -> (r:
        Result<(), NotFound>)
        requires
            can_bump(*old(self), id as int),
        ensures
            r is Ok <==> id < old(self).shopping_lists@.len() && item_id
                < old(self).shopping_lists@[id as int].items@.len(),
            r is Ok ==> replace_item_post(
                *old(self),
                *final(self),
                id as int,
                item_id as int,
                item,
            ),
            r is Err ==> *final(self) == *old(self),
    {
        if id >= self.shopping_lists.len() || item_id >= self.shopping_lists[id].items.len() {
            return Err(NotFound::NotFound);
        }
        let list = &mut self.shopping_lists[id];
        list.items[item_id] = item;
        list.generation = list.generation + 1;
        Ok(())
    }

    /// Sets the category of every item of list `id` whose category is
    /// `old_name` to `new_name`; one generation step however many matched.
    pub fn rename_category(&mut self, id: usize, old_name: &String, new_name: &String) -> (r:
        Result<(), NotFound>)
        requires
            can_bump(*old(self), id as int),
        ensures
            r is Ok <==> id < old(self).shopping_lists@.len(),
            r is Ok ==> rename_category_post(
                *old(self),
                *final(self),
                id as int,
                *old_name,
                *new_name,
            ),
            r is Err ==> *final(self) == *old(self),
    {
        if id >= self.shopping_lists.len() {
            return Err(NotFound::NotFound);
        }
        let list = &mut self.shopping_lists[id];
        recategorize_items(&mut list.items, old_name, new_name);
        list.generation = list.generation + 1;
        Ok(())
    }

    /// The long-poll check on list `id`: `Some` copy of the list when its
    /// generation differs from `known`, `None` when the caller must wait.
    pub fn poll_list(&self, id: usize, known: i32) -> (r: Result<Option<ShoppingList>, NotFound>)
        ensures
            r is Ok <==> id < self.shopping_lists@.len(),
            r matches Ok(o) ==> (o is None <==> self.shopping_lists@[id as int].generation
                == known),
            r matches Ok(Some(l)) ==> same_list(l, self.shopping_lists@[id as int]),
    {
        if id >= self.shopping_lists.len() {
            return Err(NotFound::NotFound);
        }
        let list = &self.shopping_lists[id];
        if list.generation == known {
            Ok(None)
        } else {
            Ok(Some(list.duplicate()))
        }
    }
}

/// Sets the category of each item whose category is `old_name` to `new_name`.
fn recategorize_items(items: &mut Vec<ShoppingListItem>, old_name: &String, new_name: &String)
    ensures
        final(items)@.len() == old(items)@.len(),
        forall|k: int|
            0 <= k < old(items)@.len() ==> recategorized(
                old(items)@[k],
                #[trigger] final(items)@[k],
                *old_name,
                *new_name,
            ),
{
    let ghost before = items@;
    let n = items.len();
    let mut i: usize = 0;
    while i < n
        invariant
            n == before.len(),
            i <= n,
            items@.len() == n,
            forall|k: int|
                0 <= k < i ==> recategorized(before[k], #[trigger] items@[k], *old_name, *new_name),
            forall|k: int| i <= k < n ==> #[trigger] items@[k] == before[k],
        decreases n - i,
    {
        if items[i].category == *old_name {
            items[i].category = new_name.clone();
        }
        i = i + 1;
    }
}

/// A tombstone found from `from` on lies in range, is deleted, and no
/// earlier slot from `from` on is.
pub proof fn lemma_first_tombstone_from(items: Seq<ShoppingListItem>, from: int)
    ensures
        first_tombstone_from(items, from) matches Some(k) ==> {
            &&& 0 <= from <= k < items.len()
            &&& items[k].deleted
            &&& forall|j: int| from <= j < k ==> !(#[trigger] items[j]).deleted
        },
        (0 <= from && first_tombstone_from(items, from) is None) ==> forall|j: int|
            from <= j < items.len() ==> !(#[trigger] items[j]).deleted,
    decreases items.len() - from,
{
    if 0 <= from < items.len() && !items[from].deleted {
        lemma_first_tombstone_from(items, from + 1);
    }
}

/// Index of the first tombstoned item, if any.
pub fn first_tombstone_index(items: &Vec<ShoppingListItem>) -> (r: Option<usize>)
    ensures
        r matches Some(k) ==> first_tombstone(items@) == Some(k as int),
        r is None ==> first_tombstone(items@) is None,
{
    let mut i: usize = items.len();
    let mut found: Option<usize> = None;
    while i > 0
        invariant
            i <= items@.len(),
            found matches Some(k) ==> first_tombstone_from(items@, i as int) == Some(k as int),
            found is None ==> first_tombstone_from(items@, i as int) is None,
        decreases i,
    {
        i = i - 1;
        if items[i].deleted {
            found = Some(i);
        }
    }
    found
}

} // verus!
