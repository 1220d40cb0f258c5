//! The task record and its mathematical model.

use vstd::prelude::*;

verus! {

/// A unit of work: free text and a completion flag.
///
/// A task carries no identifier of its own. It is addressed by its position in
/// the list that holds it, counted from one.
#[derive(Debug, PartialEq, Eq)]
pub struct Task {
    pub description: String,
    pub completed: bool,
}

/// What a task is to a contract: its text as a sequence of characters, and its flag.
pub ghost struct TaskModel {
    pub description: Seq<char>,
    pub completed: bool,
}

impl View for Task {
    type V = TaskModel;

    open spec fn view(&self) -> TaskModel {
        TaskModel { description: self.description@, completed: self.completed }
    }
}

impl Clone for Task {
    fn clone(&self) -> (copy: Task)
        ensures
            copy == *self,
    {
        Task { description: self.description.clone(), completed: self.completed }
    }
}

/// The models of a list of tasks, in the order of the list.
pub open spec fn models(tasks: Seq<Task>) -> Seq<TaskModel> {
    tasks.map_values(|t: Task| t@)
}

/// The text of a string that may be missing.
pub open spec fn option_text(text: Option<String>) -> Option<Seq<char>> {
    match text {
        Some(s) => Some(s@),
        None => None,
    }
}

/// The texts of a list of strings, in the order of the list.
pub open spec fn texts(lines: Seq<String>) -> Seq<Seq<char>> {
    lines.map_values(|s: String| s@)
}

} // verus!
