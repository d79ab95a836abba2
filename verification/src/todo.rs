//! The todo record and the request payloads that create and change one.

use vstd::prelude::*;

verus! {

/// What a todo record is, as a mathematical value.
pub struct TodoData {
    pub id: nat,
    pub title: Seq<char>,
    pub completed: bool,
}

/// A todo record. Its `id` never changes once the store has issued it.
#[derive(Debug, PartialEq, Eq)]
pub struct Todo {
    pub id: u32,
    pub title: String,
    pub completed: bool,
}

impl View for Todo {
    type V = TodoData;

    open spec fn view(&self) -> TodoData {
        TodoData { id: self.id as nat, title: self.title@, completed: self.completed }
    }
}

impl Clone for Todo {
    fn clone(&self) -> (copy: Self)
        ensures
            copy == *self,
    {
        Todo { id: self.id, title: self.title.clone(), completed: self.completed }
    }
}

/// The records of `todos` as mathematical values, in the same order.
pub open spec fn todo_views(todos: Seq<Todo>) -> Seq<TodoData> {
    todos.map_values(|t: Todo| t@)
}

/// The payload of a request that creates a record.
#[derive(Debug, PartialEq, Eq)]
pub struct CreateTodo {
    pub title: String,
}

/// The payload of a request that changes a record: a field that is `None` is
/// left as it was.
#[derive(Debug, PartialEq, Eq)]
pub struct UpdateTodo {
    pub title: Option<String>,
    pub completed: Option<bool>,
}

} // verus!
