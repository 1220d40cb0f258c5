//! The task list and the three operations that change it.
//!
//! Each operation works on the list in memory and reports what it did: the line
//! to show to the user, and whether the list now has to be written back to the
//! store.

use crate::number::{append_decimal, decimal};
use crate::task::{models, Task, TaskModel};
use vstd::prelude::*;
use vstd::string::*;

verus! {

/// What an operation on the list hands back to its caller.
#[derive(Debug, PartialEq, Eq)]
pub struct Report {
    /// The line for the user.
    pub message: String,
    /// Whether the operation went through, so that the list must be persisted.
    pub changed: bool,
}

/// What was found in the store at the start of a run.
#[derive(Debug, PartialEq, Eq)]
pub enum Stored {
    /// The store is absent, or it could not be read.
    Unreadable,
    /// The store was read, but its content is no list of tasks.
    Malformed,
    /// The list of tasks that the store holds.
    Tasks(Vec<Task>),
}

/// Whether `id` addresses a task in a list of `count` tasks. Positions count from one.
pub open spec fn valid_id(id: nat, count: nat) -> bool {
    1 <= id <= count
}

/// The list after a new, pending task with the given text was put at its end.
pub open spec fn with_added(tasks: Seq<TaskModel>, description: Seq<char>) -> Seq<TaskModel> {
    tasks.push(TaskModel { description, completed: false })
}

/// The list after the task at position `id` was marked as completed. An id that
/// addresses no task leaves the list as it is.
pub open spec fn with_completed(tasks: Seq<TaskModel>, id: nat) -> Seq<TaskModel> {
    if valid_id(id, tasks.len()) {
        tasks.update(
            id - 1,
            TaskModel { description: tasks[id - 1].description, completed: true },
        )
    } else {
        tasks
    }
}

/// The list after the task at position `id` was taken out. An id that addresses
/// no task leaves the list as it is.
pub open spec fn with_removed(tasks: Seq<TaskModel>, id: nat) -> Seq<TaskModel> {
    if valid_id(id, tasks.len()) {
        tasks.remove(id - 1)
    } else {
        tasks
    }
}

/// The line that confirms a new task.
pub open spec fn added_message(description: Seq<char>) -> Seq<char> {
    "Task '"@ + description + "' added successfully!"@
}

/// The line that confirms a completion. It names the position.
pub open spec fn completed_message(id: nat) -> Seq<char> {
    "Task "@ + decimal(id) + " marked as completed!"@
}

/// The line that confirms a removal. It names the text of the task that left.
pub open spec fn removed_message(description: Seq<char>) -> Seq<char> {
    "Task '"@ + description + "' removed successfully!"@
}

/// The line for an id that addresses no task.
pub open spec fn invalid_id_message() -> Seq<char> {
    "Invalid task ID."@
}

/// The line that `mark_task_as_completed` reports for a list of `count` tasks.
pub open spec fn completion_notice(count: nat, id: nat) -> Seq<char> {
    if valid_id(id, count) {
        completed_message(id)
    } else {
        invalid_id_message()
    }
}

/// The line that `remove_task` reports.
pub open spec fn removal_notice(tasks: Seq<TaskModel>, id: nat) -> Seq<char> {
    if valid_id(id, tasks.len()) {
        removed_message(tasks[id - 1].description)
    } else {
        invalid_id_message()
    }
}

/// Adding only appends: the list grows by one, every task that was there stays
/// at its position unchanged, and the new last task is pending and carries the
/// given text. This holds for every list, the empty one included.
pub proof fn law_add_appends_a_pending_task(tasks: Seq<TaskModel>, description: Seq<char>)
    ensures
        with_added(tasks, description).len() == tasks.len() + 1,
        forall|i: int| 0 <= i < tasks.len() ==> with_added(tasks, description)[i] == tasks[i],
        with_added(tasks, description).last() == (TaskModel { description, completed: false }),
{
}

/// Completing and removing act exactly where the id addresses a task.
///
/// An id outside `1..=N` leaves a list of `N` tasks as it is, and both
/// operations then report the line for an invalid id, which they report in no
/// other case. An id inside the range has the task completed afterwards, or
/// gone: a removal always yields another list, a completion does unless the
/// task was completed already.
pub proof fn law_only_a_valid_id_acts(tasks: Seq<TaskModel>, id: nat)
    ensures
        !valid_id(id, tasks.len()) ==> with_completed(tasks, id) == tasks,
        !valid_id(id, tasks.len()) ==> with_removed(tasks, id) == tasks,
        valid_id(id, tasks.len()) ==> with_completed(tasks, id)[id - 1].completed,
        with_completed(tasks, id) != tasks <==> {
            &&& valid_id(id, tasks.len())
            &&& !tasks[id - 1].completed
        },
        with_removed(tasks, id) != tasks <==> valid_id(id, tasks.len()),
        completion_notice(tasks.len(), id) == invalid_id_message() <==> !valid_id(id, tasks.len()),
        removal_notice(tasks, id) == invalid_id_message() <==> !valid_id(id, tasks.len()),
{
    reveal_strlit("Task ");
    reveal_strlit("Task '");
    reveal_strlit("Invalid task ID.");
    if valid_id(id, tasks.len()) {
        let done = with_completed(tasks, id);
        if !tasks[id - 1].completed {
            assert(done[id - 1] != tasks[id - 1]);
        } else {
            assert(done =~= tasks);
        }
        assert(with_removed(tasks, id).len() != tasks.len());
        assert(completed_message(id)[0] == 'T');
        assert(removed_message(tasks[id - 1].description)[0] == 'T');
        assert(invalid_id_message()[0] == 'I');
    }
}

/// A removal shortens the list by exactly one. The tasks in front of the
/// removed one keep their positions; every task behind it moves from its
/// position `p` to `p - 1`. Positions count from one.
pub proof fn law_removal_moves_later_tasks_up(tasks: Seq<TaskModel>, id: nat)
    requires
        valid_id(id, tasks.len()),
    ensures
        with_removed(tasks, id).len() == tasks.len() - 1,
        forall|p: int| 1 <= p < id ==> with_removed(tasks, id)[p - 1] == #[trigger] tasks[p - 1],
        forall|p: int|
            id < p <= tasks.len() ==> with_removed(tasks, id)[p - 2] == #[trigger] tasks[p - 1],
{
}

/// Decides what the list is at the start of a run.
///
/// Only a store that holds a list of tasks yields tasks, and then the list is
/// taken as it stands. A store that cannot be read and a store with other
/// content both mean a fresh start with an empty list; neither is an error and
/// neither is reported.
pub fn load_tasks(stored: Stored) -> (tasks: Vec<Task>)
    ensures
        stored matches Stored::Tasks(found) ==> tasks == found,
        !(stored is Tasks) ==> tasks@.len() == 0,
{
    match stored {
        Stored::Tasks(found) => found,
        Stored::Unreadable => Vec::new(),
        Stored::Malformed => Vec::new(),
    }
}

/// Puts a new task at the end of the list.
///
/// The text is kept as it is given, and the task starts as pending. This
/// always goes through.
pub fn add_task(tasks: &mut Vec<Task>, description: String) -> (report: Report)
    ensures
        final(tasks)@ == old(tasks)@.push((Task { description, completed: false })),
        models(final(tasks)@) == with_added(models(old(tasks)@), description@),
        report.changed,
        report.message@ == added_message(description@),
{
    let mut message = String::from_str("Task '");
    message.append(description.as_str());
    message.append("' added successfully!");
    tasks.push(Task { description, completed: false });
    assert(models(tasks@) =~= with_added(models(old(tasks)@), description@));
    Report { message, changed: true }
}

/// Marks the task at position `id` as completed.
///
/// Where `id` addresses no task, the list stays as it is and the report says so.
pub fn mark_task_as_completed(tasks: &mut Vec<Task>, id: usize) -> (report: Report)
    ensures
        valid_id(id as nat, old(tasks)@.len()) ==> final(tasks)@ == old(tasks)@.update(
            id - 1,
            (Task { description: old(tasks)@[id - 1].description, completed: true }),
        ),
        !valid_id(id as nat, old(tasks)@.len()) ==> final(tasks)@ == old(tasks)@,
        models(final(tasks)@) == with_completed(models(old(tasks)@), id as nat),
        report.changed == valid_id(id as nat, old(tasks)@.len()),
        report.message@ == completion_notice(old(tasks)@.len(), id as nat),
{
    if id > 0 && id <= tasks.len() {
        tasks[id - 1].completed = true;
        let mut message = String::from_str("Task ");
        append_decimal(&mut message, id);
        message.append(" marked as completed!");
        assert(models(tasks@) =~= with_completed(models(old(tasks)@), id as nat));
        Report { message, changed: true }
    } else {
        Report { message: String::from_str("Invalid task ID."), changed: false }
    }
}

/// Takes the task at position `id` out of the list. The tasks behind it move up
/// by one position.
///
/// Where `id` addresses no task, the list stays as it is and the report says so.
pub fn remove_task(tasks: &mut Vec<Task>, id: usize) -> (report: Report)
    ensures
        valid_id(id as nat, old(tasks)@.len()) ==> final(tasks)@ == old(tasks)@.remove(id - 1),
        !valid_id(id as nat, old(tasks)@.len()) ==> final(tasks)@ == old(tasks)@,
        models(final(tasks)@) == with_removed(models(old(tasks)@), id as nat),
        report.changed == valid_id(id as nat, old(tasks)@.len()),
        report.message@ == removal_notice(models(old(tasks)@), id as nat),
{
    if id > 0 && id <= tasks.len() {
        let removed = tasks.remove(id - 1);
        let mut message = String::from_str("Task '");
        message.append(removed.description.as_str());
        message.append("' removed successfully!");
        assert(models(tasks@) =~= with_removed(models(old(tasks)@), id as nat));
        Report { message, changed: true }
    } else {
        Report { message: String::from_str("Invalid task ID."), changed: false }
    }
}

} // verus!
