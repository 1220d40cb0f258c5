//! One run of the tracker: from the request on the command line to what the
//! process has to print, whether it has to persist the list, and how it exits.
//!
//! Three kinds of failure are kept apart. An id that addresses no task is
//! reported on standard output and the run succeeds. An id that is no number,
//! and a request that is none of the four commands, end the run with a line on
//! the error stream and a failing exit code.

use crate::listing::{list_tasks, listing, Filter};
use crate::number::{parse_id, readable_id};
use crate::store::{
    add_task, added_message, completion_notice, mark_task_as_completed, removal_notice,
    remove_task, valid_id, with_added, with_completed, with_removed,
};
use crate::task::{models, option_text, texts, Task, TaskModel};
use vstd::prelude::*;
use vstd::string::*;

verus! {

/// What the user asked for. Ids are carried as they were typed.
#[derive(Debug, PartialEq, Eq)]
pub enum Request {
    /// Add a task with this text.
    Add { description: String },
    /// List the tasks, under the filter that this word names, if one was given.
    List { filter: Option<String> },
    /// Mark the task with this id as completed.
    Complete { id: String },
    /// Remove the task with this id.
    Remove { id: String },
    /// No command, or one that the tracker does not know.
    Unknown,
}

/// A request as contracts see it.
pub ghost enum RequestModel {
    Add { description: Seq<char> },
    List { filter: Option<Seq<char>> },
    Complete { id: Seq<char> },
    Remove { id: Seq<char> },
    Unknown,
}

impl View for Request {
    type V = RequestModel;

    open spec fn view(&self) -> RequestModel {
        match *self {
            Request::Add { description } => RequestModel::Add { description: description@ },
            Request::List { filter } => RequestModel::List { filter: option_text(filter) },
            Request::Complete { id } => RequestModel::Complete { id: id@ },
            Request::Remove { id } => RequestModel::Remove { id: id@ },
            Request::Unknown => RequestModel::Unknown,
        }
    }
}

/// What a run leaves for the process to do.
#[derive(Debug, PartialEq, Eq)]
pub struct Outcome {
    /// The lines for standard output, in order.
    pub printed: Vec<String>,
    /// The line for the error stream, where the run failed.
    pub diagnostic: Option<String>,
    /// Whether the list has to be written back to the store.
    pub persist: bool,
    /// The exit code of the process: zero, or one where the run failed.
    pub exit_code: i32,
}

/// An outcome as contracts see it.
pub ghost struct OutcomeModel {
    pub printed: Seq<Seq<char>>,
    pub diagnostic: Option<Seq<char>>,
    pub persist: bool,
    pub exit_code: int,
}

impl View for Outcome {
    type V = OutcomeModel;

    open spec fn view(&self) -> OutcomeModel {
        OutcomeModel {
            printed: texts(self.printed@),
            diagnostic: option_text(self.diagnostic),
            persist: self.persist,
            exit_code: self.exit_code as int,
        }
    }
}

/// The line on the error stream for an id that is no number.
pub open spec fn invalid_id_diagnostic() -> Seq<char> {
    "Invalid ID."@
}

/// The line on the error stream for a request that is none of the four commands.
pub open spec fn invalid_command_diagnostic() -> Seq<char> {
    "Invalid command."@
}

/// The outcome of a run that went through: one or more lines on standard
/// output, and exit code zero.
pub open spec fn success(printed: Seq<Seq<char>>, persist: bool) -> OutcomeModel {
    OutcomeModel { printed, diagnostic: None, persist, exit_code: 0 }
}

/// The outcome of a run that failed: nothing on standard output, nothing to
/// persist, one line on the error stream, and exit code one.
pub open spec fn failure(diagnostic: Seq<char>) -> OutcomeModel {
    OutcomeModel { printed: Seq::empty(), diagnostic: Some(diagnostic), persist: false, exit_code: 1 }
}

/// The list after a run on `tasks`.
pub open spec fn tasks_after(tasks: Seq<TaskModel>, request: RequestModel) -> Seq<TaskModel> {
    match request {
        RequestModel::Add { description } => with_added(tasks, description),
        RequestModel::List { filter } => tasks,
        RequestModel::Complete { id } => match readable_id(id) {
            Some(n) => with_completed(tasks, n as nat),
            None => tasks,
        },
        RequestModel::Remove { id } => match readable_id(id) {
            Some(n) => with_removed(tasks, n as nat),
            None => tasks,
        },
        RequestModel::Unknown => tasks,
    }
}

/// The outcome of a run on `tasks`.
pub open spec fn outcome_of(tasks: Seq<TaskModel>, request: RequestModel) -> OutcomeModel {
    match request {
        RequestModel::Add { description } => success(seq![added_message(description)], true),
        RequestModel::List { filter } => success(listing(tasks, Filter::of(filter)), false),
        RequestModel::Complete { id } => match readable_id(id) {
            Some(n) => success(
                seq![completion_notice(tasks.len(), n as nat)],
                valid_id(n as nat, tasks.len()),
            ),
            None => failure(invalid_id_diagnostic()),
        },
        RequestModel::Remove { id } => match readable_id(id) {
            Some(n) => success(
                seq![removal_notice(tasks, n as nat)],
                valid_id(n as nat, tasks.len()),
            ),
            None => failure(invalid_id_diagnostic()),
        },
        RequestModel::Unknown => failure(invalid_command_diagnostic()),
    }
}

/// Whatever a run changes is persisted: a run that asks for nothing to be
/// written leaves the list as it was. And a run that fails changes nothing,
/// prints nothing on standard output and asks for nothing to be written.
pub proof fn law_changes_are_persisted(tasks: Seq<TaskModel>, request: RequestModel)
    ensures
        !outcome_of(tasks, request).persist ==> tasks_after(tasks, request) == tasks,
        outcome_of(tasks, request).exit_code != 0 ==> {
            &&& tasks_after(tasks, request) == tasks
            &&& !outcome_of(tasks, request).persist
            &&& outcome_of(tasks, request).printed.len() == 0
            &&& outcome_of(tasks, request).diagnostic is Some
        },
        outcome_of(tasks, request).exit_code == 0 ==> {
            &&& outcome_of(tasks, request).printed.len() > 0
            &&& outcome_of(tasks, request).diagnostic is None
        },
{
}

fn succeeded(message: String, persist: bool) -> (outcome: Outcome)
    ensures
        outcome@ == success(seq![message@], persist),
{
    let mut printed: Vec<String> = Vec::new();
    printed.push(message);
    assert(texts(printed@) =~= seq![message@]);
    Outcome { printed, diagnostic: None, persist, exit_code: 0 }
}

fn failed(diagnostic: &str) -> (outcome: Outcome)
    ensures
        outcome@ == failure(diagnostic@),
{
    let printed: Vec<String> = Vec::new();
    assert(texts(printed@) =~= Seq::empty());
    Outcome {
        printed,
        diagnostic: Some(String::from_str(diagnostic)),
        persist: false,
        exit_code: 1,
    }
}

/// Carries out one request on the list.
///
/// The list is changed in place. The outcome tells the process what to print,
/// whether to write the list back, and the exit code. Where nothing is to be
/// persisted, the list is left exactly as it was.
pub fn execute(tasks: &mut Vec<Task>, request: Request) -> (outcome: Outcome)
    ensures
        models(final(tasks)@) == tasks_after(models(old(tasks)@), request@),
        outcome@ == outcome_of(models(old(tasks)@), request@),
        !outcome.persist ==> final(tasks)@ == old(tasks)@,
{
    match request {
        Request::Add { description } => {
            let report = add_task(tasks, description);
            succeeded(report.message, true)
        },
        Request::List { filter } => {
            let printed = list_tasks(tasks, filter);
            Outcome { printed, diagnostic: None, persist: false, exit_code: 0 }
        },
        Request::Complete { id } => match parse_id(id.as_str()) {
            Some(n) => {
                let report = mark_task_as_completed(tasks, n);
                succeeded(report.message, report.changed)
            },
            None => failed("Invalid ID."),
        },
        Request::Remove { id } => match parse_id(id.as_str()) {
            Some(n) => {
                let report = remove_task(tasks, n);
                succeeded(report.message, report.changed)
            },
            None => failed("Invalid ID."),
        },
        Request::Unknown => failed("Invalid command."),
    }
}

} // verus!
