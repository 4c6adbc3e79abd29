use todo_app::record::{
    RecordId, TodoRecord, listing_outcome, mutation_outcome, new_record, require_database, to_todo,
    todos_from_records,
};
use todo_app::server::{add_todo, delete_todo, get_todos};
use todo_app::store::{StoreError, TodoStore};
use todo_app::todo::{Todo, TodoError};

fn listed(store: &TodoStore) -> Vec<Todo> {
    get_todos(store).unwrap()
}

fn id_of(store: &TodoStore, title: &str) -> String {
    listed(store).into_iter().find(|t| t.title == title).unwrap().id.unwrap()
}

#[test]
fn empty_store_then_add_buy_milk() {
    let mut store = TodoStore::new();
    assert!(listed(&store).is_empty());
    assert_eq!(add_todo(&mut store, "Buy milk".to_string(), "k1".to_string()), Ok(()));
    let todos = listed(&store);
    assert_eq!(todos.len(), 1);
    assert_eq!(todos[0].title, "Buy milk");
    assert!(!todos[0].completed);
    let id = todos[0].id.clone().unwrap();
    assert!(!id.is_empty());
    assert_eq!(id, "k1");
}

#[test]
fn add_a_add_b_delete_a_leaves_b() {
    let mut store = TodoStore::new();
    add_todo(&mut store, "A".to_string(), "ka".to_string()).unwrap();
    add_todo(&mut store, "B".to_string(), "kb".to_string()).unwrap();
    let a = id_of(&store, "A");
    assert_eq!(delete_todo(&mut store, a), Ok(()));
    let todos = listed(&store);
    assert_eq!(
        todos,
        vec![Todo { id: Some("kb".to_string()), title: "B".to_string(), completed: false }]
    );
}

#[test]
fn add_empty_title_lists_one_item() {
    let mut store = TodoStore::new();
    add_todo(&mut store, "x".to_string(), "k0".to_string()).unwrap();
    add_todo(&mut store, String::new(), "k1".to_string()).unwrap();
    let todos = listed(&store);
    let empty: Vec<&Todo> = todos.iter().filter(|t| t.title.is_empty()).collect();
    assert_eq!(empty.len(), 1);
    assert_eq!(empty[0].id.as_deref(), Some("k1"));
}

#[test]
fn delete_unknown_id_changes_nothing() {
    let mut store = TodoStore::new();
    add_todo(&mut store, "A".to_string(), "ka".to_string()).unwrap();
    let before = listed(&store);
    assert_eq!(delete_todo(&mut store, "nope".to_string()), Ok(()));
    assert_eq!(listed(&store), before);
    assert_eq!(delete_todo(&mut store, String::new()), Ok(()));
    assert_eq!(listed(&store), before);
}

#[test]
fn delete_removes_only_that_item() {
    let mut store = TodoStore::new();
    for (t, k) in [("A", "1"), ("B", "2"), ("C", "3")] {
        add_todo(&mut store, t.to_string(), k.to_string()).unwrap();
    }
    delete_todo(&mut store, "2".to_string()).unwrap();
    let titles: Vec<String> = listed(&store).into_iter().map(|t| t.title).collect();
    assert_eq!(titles, vec!["A".to_string(), "C".to_string()]);
}

#[test]
fn listing_twice_gives_the_same_items() {
    let mut store = TodoStore::new();
    add_todo(&mut store, "A".to_string(), "ka".to_string()).unwrap();
    add_todo(&mut store, "B".to_string(), "kb".to_string()).unwrap();
    assert_eq!(listed(&store), listed(&store));
}

#[test]
fn add_with_empty_key_fails_and_keeps_store() {
    let mut store = TodoStore::new();
    let r = add_todo(&mut store, "A".to_string(), String::new());
    assert_eq!(r, Err(TodoError::Store("record key is empty".to_string())));
    assert!(listed(&store).is_empty());
}

#[test]
fn add_with_taken_key_fails_and_keeps_store() {
    let mut store = TodoStore::new();
    add_todo(&mut store, "A".to_string(), "k".to_string()).unwrap();
    let r = add_todo(&mut store, "B".to_string(), "k".to_string());
    assert_eq!(r, Err(TodoError::Store("record key already exists".to_string())));
    assert_eq!(listed(&store).len(), 1);
}

#[test]
fn store_create_reports_each_error() {
    let mut store = TodoStore::new();
    assert_eq!(store.create(new_record("A".to_string()), String::new()), Err(StoreError::EmptyKey));
    let made = store.create(new_record("A".to_string()), "k".to_string()).unwrap();
    assert_eq!(
        made.id,
        Some(RecordId { table: "todo".to_string(), key: "k".to_string() })
    );
    assert_eq!(
        store.create(new_record("B".to_string()), "k".to_string()),
        Err(StoreError::DuplicateKey)
    );
    assert_eq!(store.select().len(), 1);
}

#[test]
fn store_delete_returns_the_removed_record() {
    let mut store = TodoStore::new();
    store.create(new_record("A".to_string()), "k".to_string()).unwrap();
    let gone = store.delete(&"k".to_string()).unwrap();
    assert_eq!(gone.title, "A");
    assert_eq!(store.delete(&"k".to_string()), None);
}

#[test]
fn new_record_has_no_id_and_is_open() {
    let r = new_record("T".to_string());
    assert_eq!(r, TodoRecord { id: None, title: "T".to_string(), completed: false });
}

#[test]
fn record_maps_to_wire_form() {
    let r = TodoRecord {
        id: Some(RecordId { table: "todo".to_string(), key: "abc".to_string() }),
        title: "T".to_string(),
        completed: true,
    };
    assert_eq!(
        to_todo(&r),
        Todo { id: Some("abc".to_string()), title: "T".to_string(), completed: true }
    );
    let bare = new_record("U".to_string());
    let todos = todos_from_records(&vec![r, bare]);
    assert_eq!(todos[1], Todo { id: None, title: "U".to_string(), completed: false });
}

#[test]
fn missing_database_is_a_server_error() {
    let r: Result<u8, TodoError> = require_database(None);
    assert_eq!(r, Err(TodoError::MissingDatabase));
    assert_eq!(TodoError::MissingDatabase.message(), "Database connection missing.");
    assert_eq!(require_database(Some(7u8)), Ok(7));
}

#[test]
fn store_failure_passes_its_message_through() {
    let r = mutation_outcome::<u8>(Err("connection reset".to_string()));
    assert_eq!(r, Err(TodoError::Store("connection reset".to_string())));
    assert_eq!(r.unwrap_err().message(), "connection reset");
    assert_eq!(mutation_outcome::<u8>(Ok(3)), Ok(()));
    let l = listing_outcome(Err("no table".to_string()));
    assert_eq!(l, Err(TodoError::Store("no table".to_string())));
    let ok = listing_outcome(Ok(vec![new_record("A".to_string())])).unwrap();
    assert_eq!(ok[0].title, "A");
}
