use einkaufszettel::model::{Data, NotFound, ShoppingList, ShoppingListItem};
use einkaufszettel::store::{PollStep, Store};

fn item(singular: &str, plural: &str, category: &str, amount: i32, done: bool, deleted: bool) -> ShoppingListItem {
    ShoppingListItem {
        singular: singular.to_string(),
        plural: plural.to_string(),
        category: category.to_string(),
        amount,
        done,
        deleted,
    }
}

fn groceries() -> Data {
    Data::initial("Groceries".to_string())
}

fn two_lists() -> Data {
    let mut a = ShoppingList::new("A".to_string());
    a.generation = 4;
    a.items.push(item("Egg", "Eggs", "Dairy", 6, false, false));
    a.items.push(item("Milk", "Milk", "Dairy", 1, true, true));
    a.items.push(item("Pear", "Pears", "Fruit", 2, false, true));
    let mut b = ShoppingList::new("B".to_string());
    b.generation = 9;
    Data::new(vec![a, b])
}

#[test]
fn scenario_add_then_replace_wakes_waiter() {
    let mut store = Store::new(groceries());
    assert_eq!(store.add_item(0), Ok(0));
    assert_eq!(store.data().shopping_lists[0].generation, 1);
    let step = store.wait_or_get_list(0, 1);
    assert!(matches!(step, Ok(PollStep::Wait(_))));
    let apple = item("Apple", "Apples", "Fruit", 3, false, false);
    assert_eq!(store.replace_item(0, 0, apple.clone()), Ok(()));
    match store.wait_or_get_list(0, 1) {
        Ok(PollStep::Ready(list)) => {
            assert_eq!(list.generation, 2);
            assert_eq!(list.items, vec![apple]);
            assert_eq!(list.name, "Groceries");
            assert!(!list.deleted);
        }
        _ => panic!("the waiter must be released"),
    }
}

#[test]
fn waiter_receiver_is_woken_by_mutation() {
    let mut store = Store::new(groceries());
    let mut receiver = match store.wait_or_get_list(0, 0) {
        Ok(PollStep::Wait(r)) => r,
        _ => panic!("generation zero is current"),
    };
    assert!(receiver.try_recv().is_err());
    assert_eq!(store.set_list_meta(0, "Weekly".to_string(), false), Ok(()));
    assert!(receiver.try_recv().is_ok());
}

#[test]
fn poll_returns_at_once_on_other_generation() {
    let store = Store::new(two_lists());
    match store.wait_or_get_list(1, 3) {
        Ok(PollStep::Ready(list)) => assert_eq!(list, store.data().shopping_lists[1]),
        _ => panic!("a stale generation returns at once"),
    }
    assert!(matches!(store.wait_or_get_list(1, 9), Ok(PollStep::Wait(_))));
    assert!(matches!(store.wait_or_get_list(2, 0), Err(NotFound::NotFound)));
}

#[test]
fn add_item_appends_at_last_index() {
    let mut data = groceries();
    assert_eq!(data.add_item(0), Ok(0));
    assert_eq!(data.add_item(0), Ok(1));
    assert_eq!(data.add_item(0), Ok(2));
    assert_eq!(data.shopping_lists[0].items.len(), 3);
    assert_eq!(data.shopping_lists[0].generation, 3);
}

#[test]
fn add_item_reuses_first_tombstone() {
    let mut data = two_lists();
    assert_eq!(data.add_item(0), Ok(1));
    let items = &data.shopping_lists[0].items;
    assert_eq!(items.len(), 3);
    assert_eq!(items[1], item("", "", "", 0, false, false));
    assert!(items[2].deleted);
    assert_eq!(data.shopping_lists[0].generation, 5);
    let bread = item("Bread", "Breads", "Bakery", 1, false, false);
    assert_eq!(data.replace_item(0, 1, bread.clone()), Ok(()));
    assert_eq!(data.shopping_lists[0].items.len(), 3);
    assert_eq!(data.shopping_lists[0].items[1], bread);
    assert_eq!(data.shopping_lists[0].generation, 6);
}

#[test]
fn mutation_bumps_only_target_list() {
    let mut data = two_lists();
    let before = data.clone();
    assert_eq!(data.set_list_meta(1, "C".to_string(), true), Ok(()));
    assert_eq!(data.shopping_lists[0], before.shopping_lists[0]);
    assert_eq!(data.shopping_lists[1].generation, 10);
    assert_eq!(data.shopping_lists[1].name, "C");
    assert!(data.shopping_lists[1].deleted);
}

#[test]
fn out_of_range_ids_change_nothing() {
    let mut data = two_lists();
    let before = data.clone();
    assert_eq!(data.set_list_meta(2, "X".to_string(), true), Err(NotFound::NotFound));
    assert_eq!(data.add_item(2), Err(NotFound::NotFound));
    assert_eq!(data.replace_item(2, 0, item("a", "b", "c", 1, false, false)), Err(NotFound::NotFound));
    assert_eq!(data.replace_item(0, 3, item("a", "b", "c", 1, false, false)), Err(NotFound::NotFound));
    assert_eq!(data.replace_item(1, 0, item("a", "b", "c", 1, false, false)), Err(NotFound::NotFound));
    assert_eq!(data.rename_category(5, &"Dairy".to_string(), &"Milk".to_string()), Err(NotFound::NotFound));
    assert_eq!(data, before);
}

#[test]
fn store_out_of_range_changes_nothing() {
    let mut store = Store::new(two_lists());
    assert_eq!(store.add_item(7), Err(NotFound::NotFound));
    assert_eq!(store.replace_item(0, 9, item("", "", "", 0, false, false)), Err(NotFound::NotFound));
    assert_eq!(store.data(), &two_lists());
}

#[test]
fn rename_category_changes_exact_matches() {
    let mut data = two_lists();
    assert_eq!(data.rename_category(0, &"Dairy".to_string(), &"Chilled".to_string()), Ok(()));
    let items = &data.shopping_lists[0].items;
    assert_eq!(items[0].category, "Chilled");
    assert_eq!(items[1].category, "Chilled");
    assert_eq!(items[2].category, "Fruit");
    assert_eq!(items[0].singular, "Egg");
    assert_eq!(data.shopping_lists[0].generation, 5);
}

#[test]
fn rename_category_without_match_still_counts() {
    let mut data = two_lists();
    let items = data.shopping_lists[0].items.clone();
    assert_eq!(data.rename_category(0, &"dairy".to_string(), &"X".to_string()), Ok(()));
    assert_eq!(data.shopping_lists[0].items, items);
    assert_eq!(data.shopping_lists[0].generation, 5);
}

#[test]
fn summaries_in_stored_order() {
    let mut store = Store::new(two_lists());
    assert_eq!(store.set_list_meta(0, "Old".to_string(), true), Ok(()));
    let s = store.read_all_list_summaries();
    assert_eq!(s.len(), 2);
    assert_eq!(s[0].name, "Old");
    assert!(s[0].deleted);
    assert_eq!(s[1].name, "B");
    assert!(!s[1].deleted);
}

#[test]
fn initial_dataset_has_one_empty_list() {
    let data = Data::initial("Default".to_string());
    assert_eq!(data.list_count(), 1);
    assert_eq!(data.shopping_lists[0], ShoppingList::new("Default".to_string()));
    assert_eq!(data.shopping_lists[0].generation, 0);
    assert!(data.shopping_lists[0].items.is_empty());
}

#[test]
fn duplicate_copies_every_field() {
    let data = two_lists();
    assert_eq!(data.shopping_lists[0].duplicate(), data.shopping_lists[0]);
    assert_eq!(data.shopping_lists[0].items[0].duplicate(), data.shopping_lists[0].items[0]);
}
