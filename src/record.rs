use vstd::prelude::*;
use crate::todo::{Todo, TodoError, TodoModel, todo_models};

verus! {

/// The name of the resource under which todo records are kept.
pub const TODO_RESOURCE: &'static str = "todo";

/// A storage identifier: the resource a record belongs to and its key, in the
/// text form in which the store renders it.
#[derive(Clone, Debug, PartialEq, Eq)]
pub struct RecordId {
    pub table: String,
    pub key: String,
}

/// A todo item as the store keeps it.
#[derive(Clone, Debug, PartialEq, Eq)]
pub struct TodoRecord {
    pub id: Option<RecordId>,
    pub title: String,
    pub completed: bool,
}

/// The mathematical value of a [`TodoRecord`]; the identifier is the pair of
/// resource name and key.
pub struct RecordModel {
    pub id: Option<(Seq<char>, Seq<char>)>,
    pub title: Seq<char>,
    pub completed: bool,
}

impl View for TodoRecord {
    type V = RecordModel;

    open spec fn view(&self) -> RecordModel {
        RecordModel {
            id: match self.id {
                Some(i) => Some((i.table@, i.key@)),
                None => None,
            },
            title: self.title@,
            completed: self.completed,
        }
    }
}

pub open spec fn record_models(s: Seq<TodoRecord>) -> Seq<RecordModel> {
    s.map_values(|r: TodoRecord| r@)
}

/// The wire form of a stored record: its key becomes the identifier.
pub open spec fn wire_of(r: RecordModel) -> TodoModel {
    TodoModel {
        id: match r.id {
            Some(i) => Some(i.1),
            None => None,
        },
        title: r.title,
        completed: r.completed,
    }
}

pub open spec fn wire_of_all(s: Seq<RecordModel>) -> Seq<TodoModel> {
    s.map_values(|r: RecordModel| wire_of(r))
}

/// Copies a record field by field.
pub fn copy_record(r: &TodoRecord) -> (c: TodoRecord)
    ensures
        c@ == r@,
{
    TodoRecord {
        id: match &r.id {
            Some(i) => Some(RecordId { table: i.table.clone(), key: i.key.clone() }),
            None => None,
        },
        title: r.title.clone(),
        completed: r.completed,
    }
}

/// The record that an addition asks the store to create: no identifier yet,
/// not completed.
pub fn new_record(title: String) -> (r: TodoRecord)
    ensures
        r@ == (RecordModel { id: None, title: title@, completed: false }),
{
    TodoRecord { id: None, title, completed: false }
}

/// Maps a stored record to its wire form.
pub fn to_todo(r: &TodoRecord) -> (t: Todo)
    ensures
        t@ == wire_of(r@),
{
    Todo {
        id: match &r.id {
            Some(i) => Some(i.key.clone()),
            None => None,
        },
        title: r.title.clone(),
        completed: r.completed,
    }
}

/// Maps stored records to their wire forms, keeping their order.
pub fn todos_from_records(records: &Vec<TodoRecord>) -> (todos: Vec<Todo>)
    ensures
        todo_models(todos@) == wire_of_all(record_models(records@)),
{
    let mut todos: Vec<Todo> = Vec::new();
    let mut i: usize = 0;
    while i < records.len()
        invariant
            i <= records@.len(),
            todos@.len() == i,
            forall|j: int| 0 <= j < i ==> (#[trigger] todos@[j])@ == wire_of(records@[j]@),
        decreases records@.len() - i,
    {
        let t = to_todo(&records[i]);
        todos.push(t);
        i = i + 1;
    }
    assert(todo_models(todos@) =~= wire_of_all(record_models(records@)));
    todos
}

/// Takes the database handle that an operation was given, or reports that
/// none was.
pub fn require_database<D>(handle: Option<D>) -> (r: Result<D, TodoError>)
    ensures
        handle is Some <==> r is Ok,
        handle is Some ==> r == Ok::<D, TodoError>(handle->Some_0),
        handle is None ==> r == Err::<D, TodoError>(TodoError::MissingDatabase),
{
    match handle {
        Some(d) => Ok(d),
        None => Err(TodoError::MissingDatabase),
    }
}

/// The outcome of a mutation as the remote operation reports it: whatever the
/// store returned on success is dropped, and a store failure becomes a server
/// error carrying the store's message.
pub fn mutation_outcome<T>(store_result: Result<T, String>) -> (r: Result<(), TodoError>)
    ensures
        store_result is Ok <==> r is Ok,
        store_result is Err ==> r == Err::<(), TodoError>(
            TodoError::Store(store_result->Err_0),
        ),
{
    match store_result {
        Ok(_) => Ok(()),
        Err(m) => Err(TodoError::Store(m)),
    }
}

/// The outcome of a listing as the remote operation reports it.
pub fn listing_outcome(store_result: Result<Vec<TodoRecord>, String>) -> (r: Result<
    Vec<Todo>,
    TodoError,
>)
    ensures
        store_result is Ok <==> r is Ok,
        store_result is Ok ==> todo_models(r->Ok_0@) == wire_of_all(
            record_models(store_result->Ok_0@),
        ),
        store_result is Err ==> r == Err::<Vec<Todo>, TodoError>(
            TodoError::Store(store_result->Err_0),
        ),
{
    match store_result {
        Ok(records) => Ok(todos_from_records(&records)),
        Err(m) => Err(TodoError::Store(m)),
    }
}

} // verus!
