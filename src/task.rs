use vstd::prelude::*;

verus! {

/// The mathematical value of a task.
pub struct TaskView {
    pub id: i64,
    pub description: Seq<char>,
    pub is_done: bool,
}

/// One entry of the list: its store identifier, its text and whether it is
/// done.
pub struct TodoItem {
    id: i64,
    description: String,
    is_done: bool,
}

impl View for TodoItem {
    type V = TaskView;

    closed spec fn view(&self) -> TaskView {
        TaskView { id: self.id, description: self.description@, is_done: self.is_done }
    }
}

impl TodoItem {
    /// A fresh task, not yet done.
    pub fn new(id: i64, description: &str) -> (r: TodoItem)
        ensures
            r@ == (TaskView { id, description: description@, is_done: false }),
    {
        TodoItem { id, description: description.to_owned(), is_done: false }
    }

    /// A task as a stored row holds it: the done flag is an integer, and any
    /// value other than zero means done.
    pub fn from_row(id: i64, description: String, done_flag: i32) -> (r: TodoItem)
        ensures
            r@ == (TaskView { id, description: description@, is_done: done_flag != 0 }),
    {
        TodoItem { id, description, is_done: done_flag != 0 }
    }

    pub fn id(&self) -> (r: i64)
        ensures
            r == self@.id,
    {
        self.id
    }

    pub fn description(&self) -> (r: &str)
        ensures
            r@ == self@.description,
    {
        self.description.as_str()
    }

    pub fn is_done(&self) -> (r: bool)
        ensures
            r == self@.is_done,
    {
        self.is_done
    }

    /// The same task with its done flag flipped.
    pub fn toggled(self) -> (r: TodoItem)
        ensures
            r@ == (TaskView { is_done: !self@.is_done, ..self@ }),
    {
        TodoItem { is_done: !self.is_done, ..self }
    }
}

} // verus!
