use todo_service::handlers::add_todo_item;
use todo_service::handlers::remove_todo_item;
use todo_service::store::TodoStore;

#[test]
fn post_then_get_contains_new_item() {
    let mut store = TodoStore::new();
    let first = store.insert(String::from("Buy milk"));
    let second = store.insert(String::from("Walk dog"));
    assert_ne!(first, second);
    let listing = store.list();
    assert_eq!(listing.items.len(), 2);
    assert_eq!(listing.items[0].id, first);
    assert_eq!(listing.items[0].item, "Buy milk");
    assert_eq!(listing.items[1].id, second);
    assert_eq!(listing.items[1].item, "Walk dog");
}

#[test]
fn delete_existing_removes_exactly_that_item() {
    let mut store = TodoStore::new();
    let first = store.insert(String::from("one"));
    let second = store.insert(String::from("two"));
    let rows = store.delete(first);
    assert_eq!(rows, 1);
    let message = remove_todo_item(Ok(rows)).unwrap();
    assert_eq!(message.message, "1 rows deleted!");
    let listing = store.list();
    assert_eq!(listing.items.len(), 1);
    assert_eq!(listing.items[0].id, second);
    assert_eq!(listing.items[0].item, "two");
}

#[test]
fn delete_missing_reports_zero_and_keeps_list() {
    let mut store = TodoStore::new();
    store.insert(String::from("keep me"));
    let rows = store.delete(99);
    assert_eq!(rows, 0);
    let message = remove_todo_item(Ok(rows)).unwrap();
    assert_eq!(message.message, "0 rows deleted!");
    let listing = store.list();
    assert_eq!(listing.items.len(), 1);
    assert_eq!(listing.items[0].item, "keep me");
}

#[test]
fn empty_store_lists_nothing() {
    let store = TodoStore::new();
    let listing = store.list();
    assert!(listing.items.is_empty());
}

#[test]
fn identifiers_are_never_reused() {
    let mut store = TodoStore::new();
    let first = store.insert(String::from("a"));
    let rows = store.delete(first);
    assert_eq!(rows, 1);
    let second = store.insert(String::from("b"));
    assert_ne!(first, second);
}

#[test]
fn empty_text_is_accepted() {
    let mut store = TodoStore::new();
    let id = store.insert(String::new());
    let listing = store.list();
    assert_eq!(listing.items.len(), 1);
    assert_eq!(listing.items[0].id, id);
    assert_eq!(listing.items[0].item, "");
}

#[test]
fn full_round_trip_scenario() {
    let mut store = TodoStore::new();
    assert!(store.list().items.is_empty());

    let id = store.insert(String::from("Buy milk"));
    let inserted = add_todo_item(Ok(1)).unwrap();
    assert_eq!(inserted.message, "1 rows inserted!");
    assert_eq!(id, 1);

    let listing = store.list();
    assert_eq!(listing.items.len(), 1);
    assert_eq!(listing.items[0].id, 1);
    assert_eq!(listing.items[0].item, "Buy milk");

    let rows = store.delete(1);
    let deleted = remove_todo_item(Ok(rows)).unwrap();
    assert_eq!(deleted.message, "1 rows deleted!");

    assert!(store.list().items.is_empty());
}
