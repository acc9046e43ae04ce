use vstd::prelude::*;
use tokio::sync::broadcast::{Receiver, Sender};
use crate::model::{
    Data,
    NotFound,
    ShoppingList,
    ShoppingListItem,
    ListSummary,
    add_item_post,
    can_bump,
    rename_category_post,
    replace_item_post,
    same_list,
    set_list_meta_post,
};

verus! {

#[verifier::external_type_specification]
#[verifier::external_body]
#[verifier::reject_recursive_types(T)]
pub struct ExSender<T>(Sender<T>);

#[verifier::external_type_specification]
#[verifier::external_body]
#[verifier::reject_recursive_types(T)]
pub struct ExReceiver<T>(Receiver<T>);

/// Relies on tokio's `broadcast::Sender::new`: a channel with room for one
/// pending wake-up and no receiver yet (it panics only on a capacity of zero
/// or above `usize::MAX / 2`).
#[verifier::external_body]
fn wake_channel() -> Sender<()> {
    Sender::new(1)
}

/// Relies on tokio's `broadcast::Sender::send`: every receiver subscribed at
/// this moment is woken; with none, the signal is dropped.
#[verifier::external_body]
fn wake_all(sender: &Sender<()>) {
    let _ = sender.send(());
}

/// Relies on tokio's `broadcast::Sender::subscribe`: the receiver sees every
/// value sent after this call (it panics only when `usize::MAX / 4`
/// receivers of the channel are alive at once).
#[verifier::external_body]
fn watch(sender: &Sender<()>) -> Receiver<()> {
    sender.subscribe()
}

/// What a long-poll request does next.
pub enum PollStep {
    /// The list changed since the caller's generation: here is its copy.
    Ready(ShoppingList),
    /// The list is as the caller knows it: wait on this receiver, then ask
    /// again. It was subscribed before the generation was read, so a change
    /// that lands after the check wakes it.
    Wait(Receiver<()>),
}

/// The dataset together with the signal that wakes waiting readers. A
/// mutation changes the data, raises the generation of its list and wakes
/// every waiter as one step.
pub struct Store {
    data: Data,
    notifier: Sender<()>,
}

impl Store {
    pub closed spec fn data_spec(&self) -> Data {
        self.data
    }

    /// A store that holds `data`.
    pub fn new(data: Data) -> (r: Store)
        ensures
            r.data_spec() == data,
    {
        Store { data, notifier: wake_channel() }
    }

    /// The current dataset, for reading and for saving.
    pub fn data(&self) -> (r: &Data)
        ensures
            *r == self.data_spec(),
    {
        &self.data
    }

    /// Name and deleted flag of every list, in stored order.
    pub fn read_all_list_summaries(&self) -> (r: Vec<ListSummary>)
        ensures
            r@.len() == self.data_spec().shopping_lists@.len(),
            forall|j: int|
                0 <= j < r@.len() ==> (#[trigger] r@[j]).name
                    == self.data_spec().shopping_lists@[j].name && r@[j].deleted
                    == self.data_spec().shopping_lists@[j].deleted,
    {
        self.data.list_summaries()
    }

    /// Sets the name and deleted flag of list `id`, then wakes the waiters.
    pub fn set_list_meta(&mut self, id: usize, name: String, deleted: bool) -> (r: Result<
        (),
        NotFound,
    >)
        requires
            can_bump(old(self).data_spec(), id as int),
        ensures
            r is Ok <==> id < old(self).data_spec().shopping_lists@.len(),
            r is Ok ==> set_list_meta_post(
                old(self).data_spec(),
                final(self).data_spec(),
                id as int,
                name,
                deleted,
            ),
            r is Err ==> final(self).data_spec() == old(self).data_spec(),
    {
        let r = self.data.set_list_meta(id, name, deleted);
        if r.is_ok() {
            wake_all(&self.notifier);
        }
        r
    }

    /// Adds a blank item to list `id`, then wakes the waiters; returns its slot.
    pub fn add_item(&mut self, id: usize) -> (r: Result<usize, NotFound>)
        requires
            can_bump(old(self).data_spec(), id as int),
        ensures
            r is Ok <==> id < old(self).data_spec().shopping_lists@.len(),
            r matches Ok(slot) ==> add_item_post(
                old(self).data_spec(),
                final(self).data_spec(),
                id as int,
                slot as int,
            ),
            r is Err ==> final(self).data_spec() == old(self).data_spec(),
    {
        let r = self.data.add_item(id);
        if r.is_ok() {
            wake_all(&self.notifier);
        }
        r
    }

    /// Replaces item `item_id` of list `id`, then wakes the waiters.
    pub fn replace_item(&mut self, id: usize, item_id: usize, item: ShoppingListItem) -> (r:
        Result<(), NotFound>)
        requires
            can_bump(old(self).data_spec(), id as int),
        ensures
            r is Ok <==> id < old(self).data_spec().shopping_lists@.len() && item_id
                < old(self).data_spec().shopping_lists@[id as int].items@.len(),
            r is Ok ==> replace_item_post(
                old(self).data_spec(),
                final(self).data_spec(),
                id as int,
                item_id as int,
                item,
            ),
            r is Err ==> final(self).data_spec() == old(self).data_spec(),
    {
        let r = self.data.replace_item(id, item_id, item);
        if r.is_ok() {
            wake_all(&self.notifier);
        }
        r
    }

    /// Renames a category across list `id`, then wakes the waiters.
    pub fn rename_category(&mut self, id: usize, old_name: &String, new_name: &String) -> (r:
        Result<(), NotFound>)
        requires
            can_bump(old(self).data_spec(), id as int),
        ensures
            r is Ok <==> id < old(self).data_spec().shopping_lists@.len(),
            r is Ok ==> rename_category_post(
                old(self).data_spec(),
                final(self).data_spec(),
                id as int,
                *old_name,
                *new_name,
            ),
            r is Err ==> final(self).data_spec() == old(self).data_spec(),
    {
        let r = self.data.rename_category(id, old_name, new_name);
        if r.is_ok() {
            wake_all(&self.notifier);
        }
        r
    }

    /// One check of the long-poll protocol on list `id`: the list's copy when
    /// its generation differs from `known`, else a receiver to wait on,
    /// subscribed before the generation was read.
    pub fn wait_or_get_list(&self, id: usize, known: i32) -> (r: Result<PollStep, NotFound>)
        ensures
            r is Ok <==> id < self.data_spec().shopping_lists@.len(),
            r matches Ok(step) ==> (step is Wait <==> self.data_spec().shopping_lists@[id as int].generation
                == known),
            r matches Ok(PollStep::Ready(l)) ==> same_list(
                l,
                self.data_spec().shopping_lists@[id as int],
            ),
    {
        let receiver = watch(&self.notifier);
        match self.data.poll_list(id, known) {
            Err(e) => Err(e),
            Ok(None) => Ok(PollStep::Wait(receiver)),
            Ok(Some(list)) => Ok(PollStep::Ready(list)),
        }
    }
}

} // verus!
