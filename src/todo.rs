use vstd::prelude::*;

verus! {

/// A todo item as clients see it: the identifier is absent until the store
/// has assigned one.
#[derive(Clone, Debug, PartialEq, Eq)]
pub struct Todo {
    pub id: Option<String>,
    pub title: String,
    pub completed: bool,
}

/// The mathematical value of a [`Todo`].
pub struct TodoModel {
    pub id: Option<Seq<char>>,
    pub title: Seq<char>,
    pub completed: bool,
}

pub open spec fn opt_string_view(o: Option<String>) -> Option<Seq<char>> {
    match o {
        Some(s) => Some(s@),
        None => None,
    }
}

impl View for Todo {
    type V = TodoModel;

    open spec fn view(&self) -> TodoModel {
        TodoModel { id: opt_string_view(self.id), title: self.title@, completed: self.completed }
    }
}

/// The values of a sequence of todo items.
pub open spec fn todo_models(s: Seq<Todo>) -> Seq<TodoModel> {
    s.map_values(|t: Todo| t@)
}

/// The one kind of error that the remote operations report: a server error
/// that carries a message.
#[derive(Clone, Debug, PartialEq, Eq)]
pub enum TodoError {
    /// No database handle was provided to the operation.
    MissingDatabase,
    /// The store failed; its message is passed through.
    Store(String),
}

pub open spec fn missing_database_message() -> Seq<char> {
    "Database connection missing."@
}

impl TodoError {
    /// The message that the server error carries.
    pub open spec fn message_spec(&self) -> Seq<char> {
        match self {
            TodoError::MissingDatabase => missing_database_message(),
            TodoError::Store(m) => m@,
        }
    }

    pub fn clone_error(&self) -> (r: TodoError)
        ensures
            r == *self,
    {
        match self {
            TodoError::MissingDatabase => TodoError::MissingDatabase,
            TodoError::Store(m) => TodoError::Store(m.clone()),
        }
    }

    pub fn message(&self) -> (r: String)
        ensures
            r@ == self.message_spec(),
    {
        match self {
            TodoError::MissingDatabase => String::from_str("Database connection missing."),
            TodoError::Store(m) => m.clone(),
        }
    }
}

} // verus!
