use vstd::prelude::*;
use crate::record::{mutation_outcome, new_record, todos_from_records, wire_of_all};
use crate::store::{StoreError, TodoStore, has_key, key_of, stored_record};
use crate::todo::{Todo, TodoError, todo_models};

verus! {

/// Lists every todo item of the store in wire form, in the store's order.
pub fn get_todos(store: &TodoStore) -> (r: Result<Vec<Todo>, TodoError>)
    ensures
        r is Ok,
        todo_models(r->Ok_0@) == wire_of_all(store.view()),
{
    let records = store.select();
    Ok(todos_from_records(&records))
}

/// Adds a todo item titled `title`, not completed, under the fresh key `key`.
/// A store failure (an empty or taken key) is reported as a server error
/// carrying the store's message, and leaves the store as it was.
pub fn add_todo(store: &mut TodoStore, title: String, key: String) -> (r: Result<(), TodoError>)
    requires
        old(store).wf(),
    ensures
        final(store).wf(),
        r is Ok <==> key@.len() > 0 && !has_key(old(store).view(), key@),
        r is Ok ==> final(store).view() == old(store).view().push(
            stored_record(title@, false, key@),
        ),
        r is Err ==> final(store).view() == old(store).view(),
        key@.len() == 0 ==> r is Err && r->Err_0.message_spec()
            == StoreError::EmptyKey.message_spec() && r->Err_0 is Store,
        key@.len() > 0 && has_key(old(store).view(), key@) ==> r is Err
            && r->Err_0.message_spec() == StoreError::DuplicateKey.message_spec()
            && r->Err_0 is Store,
{
    let outcome = store.create(new_record(title), key);
    let reported = match outcome {
        Ok(r) => Ok(r),
        Err(e) => Err(e.message()),
    };
    mutation_outcome(reported)
}

/// Deletes the todo item whose identifier is `id`. Deleting an identifier
/// that no item has is no error and changes nothing.
pub fn delete_todo(store: &mut TodoStore, id: String) -> (r: Result<(), TodoError>)
    requires
        old(store).wf(),
    ensures
        final(store).wf(),
        r is Ok,
        !has_key(old(store).view(), id@) ==> final(store).view() == old(store).view(),
        has_key(old(store).view(), id@) ==> exists|i: int|
            0 <= i < old(store).view().len() && key_of(#[trigger] old(store).view()[i]) == id@
                && final(store).view() == old(store).view().remove(i),
{
    let removed = store.delete(&id);
    mutation_outcome::<Option<crate::record::TodoRecord>>(Ok(removed))
}

} // verus!
