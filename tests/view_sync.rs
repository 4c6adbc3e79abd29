use todo_app::sync::{Action, Listing, Row, TodoSync};
use todo_app::todo::{Todo, TodoError};

fn item(id: &str, title: &str) -> Todo {
    Todo { id: Some(id.to_string()), title: title.to_string(), completed: false }
}

#[test]
fn new_view_is_loading_and_asks_for_a_listing() {
    let s = TodoSync::new();
    assert!(s.rows().is_empty());
    assert_eq!(s.refresh(), Action::CallList { add_version: 0, delete_version: 0 });
}

#[test]
fn pending_add_shows_placeholder_then_listing_replaces_it() {
    let mut s = TodoSync::new();
    s.list_arrived(0, 0, Ok(vec![item("a", "A")]));
    let a = s.submit_add("X".to_string());
    assert_eq!(a, Action::CallAdd { token: 0, title: "X".to_string() });
    assert_eq!(
        s.rows(),
        vec![
            Row::Item { title: "A".to_string(), id: "a".to_string() },
            Row::Placeholder { title: "X".to_string() },
        ]
    );
    let next = s.add_resolved(0);
    assert_eq!(next, Action::CallList { add_version: 1, delete_version: 0 });
    // still shown until the fresh listing arrives
    assert_eq!(s.rows().len(), 2);
    s.list_arrived(1, 0, Ok(vec![item("a", "A"), item("x", "X")]));
    assert_eq!(
        s.rows(),
        vec![
            Row::Item { title: "A".to_string(), id: "a".to_string() },
            Row::Item { title: "X".to_string(), id: "x".to_string() },
        ]
    );
}

#[test]
fn placeholders_show_while_loading() {
    let mut s = TodoSync::new();
    s.submit_add("P".to_string());
    s.submit_add("Q".to_string());
    assert_eq!(
        s.rows(),
        vec![
            Row::Placeholder { title: "P".to_string() },
            Row::Placeholder { title: "Q".to_string() },
        ]
    );
}

#[test]
fn stale_listing_is_ignored() {
    let mut s = TodoSync::new();
    s.submit_add("X".to_string());
    s.add_resolved(0);
    s.list_arrived(0, 0, Ok(vec![]));
    assert_eq!(s.listing, Listing::Loading);
    assert_eq!(s.rows(), vec![Row::Placeholder { title: "X".to_string() }]);
}

#[test]
fn only_the_resolved_submission_leaves() {
    let mut s = TodoSync::new();
    s.submit_add("X".to_string());
    s.submit_add("Y".to_string());
    s.add_resolved(1);
    s.list_arrived(1, 0, Ok(vec![item("y", "Y")]));
    assert_eq!(
        s.rows(),
        vec![
            Row::Item { title: "Y".to_string(), id: "y".to_string() },
            Row::Placeholder { title: "X".to_string() },
        ]
    );
}

#[test]
fn delete_resolution_asks_for_a_listing() {
    let mut s = TodoSync::new();
    assert_eq!(s.delete_resolved(), Action::CallList { add_version: 0, delete_version: 1 });
    s.list_arrived(0, 1, Ok(vec![]));
    assert_eq!(s.rows(), vec![Row::NoTasks]);
}

#[test]
fn failed_listing_renders_the_error() {
    let mut s = TodoSync::new();
    s.list_arrived(0, 0, Err(TodoError::Store("down".to_string())));
    assert_eq!(s.rows(), vec![Row::Failure(TodoError::Store("down".to_string()))]);
}

#[test]
fn item_without_id_has_empty_delete_target() {
    let mut s = TodoSync::new();
    let t = Todo { id: None, title: "T".to_string(), completed: false };
    s.list_arrived(0, 0, Ok(vec![t]));
    assert_eq!(s.rows(), vec![Row::Item { title: "T".to_string(), id: String::new() }]);
}
