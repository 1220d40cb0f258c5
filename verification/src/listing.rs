//! The numbered view of the list that is shown to the user.
//!
//! A listing never changes the list. It picks the tasks that a filter admits,
//! keeps their order, numbers them from one, and writes one line for each.

use crate::number::{append_decimal, decimal};
use crate::task::{models, option_text, texts, Task, TaskModel};
use vstd::prelude::*;
use vstd::string::*;
use vstd::utf8::encode_utf8_decode_utf8;

verus! {

/// Which tasks a listing shows.
#[derive(Debug, Clone, Copy, PartialEq, Eq)]
pub enum Filter {
    /// Every task.
    All,
    /// The tasks that are not completed.
    Pending,
    /// The tasks that are completed.
    Completed,
}

impl Filter {
    /// The filter that a word stands for: `pending` and `completed` name their
    /// filters; no word, or any other word, stands for all tasks.
    pub open spec fn of(word: Option<Seq<char>>) -> Filter {
        if word == Some("pending"@) {
            Filter::Pending
        } else if word == Some("completed"@) {
            Filter::Completed
        } else {
            Filter::All
        }
    }

    /// Whether the filter lets a task through.
    pub open spec fn admits(self, task: TaskModel) -> bool {
        match self {
            Filter::All => true,
            Filter::Pending => !task.completed,
            Filter::Completed => task.completed,
        }
    }

    /// Reads a filter from the word that the user gave, if any.
    pub fn from_word(word: &Option<String>) -> (filter: Filter)
        ensures
            filter == Filter::of(option_text(*word)),
    {
        match word {
            Some(w) => {
                if same_text(w.as_str(), "pending") {
                    Filter::Pending
                } else if same_text(w.as_str(), "completed") {
                    Filter::Completed
                } else {
                    Filter::All
                }
            },
            None => Filter::All,
        }
    }

    /// Whether the filter lets a task through.
    pub fn accepts(self, task: &Task) -> (yes: bool)
        ensures
            yes == self.admits(task@),
    {
        match self {
            Filter::All => true,
            Filter::Pending => !task.completed,
            Filter::Completed => task.completed,
        }
    }
}

/// `Filter::admits` as a predicate on tasks.
pub open spec fn admitting(filter: Filter) -> spec_fn(TaskModel) -> bool {
    |task: TaskModel| filter.admits(task)
}

/// The tasks that a listing shows: those that the filter admits, in the order
/// of the list.
pub open spec fn shown(tasks: Seq<TaskModel>, filter: Filter) -> Seq<TaskModel> {
    tasks.filter(admitting(filter))
}

/// The word that a listing puts behind a task for its state.
pub open spec fn status_label(completed: bool) -> Seq<char> {
    if completed {
        "Completed"@
    } else {
        "Pending"@
    }
}

/// The line of a listing for the task at `position`.
pub open spec fn task_line(position: nat, task: TaskModel) -> Seq<char> {
    decimal(position) + ". "@ + task.description + " ("@ + status_label(task.completed) + ")"@
}

/// The line of a listing that shows no task.
pub open spec fn no_tasks_message() -> Seq<char> {
    "No tasks found."@
}

/// One line for each of the given tasks, numbered from one.
pub open spec fn numbered(tasks: Seq<TaskModel>) -> Seq<Seq<char>> {
    Seq::new(tasks.len(), |k: int| task_line((k + 1) as nat, tasks[k]))
}

/// The lines of a listing of `tasks` under `filter`.
pub open spec fn listing(tasks: Seq<TaskModel>, filter: Filter) -> Seq<Seq<char>> {
    if shown(tasks, filter).len() == 0 {
        seq![no_tasks_message()]
    } else {
        numbered(shown(tasks, filter))
    }
}

/// The places of the tasks that a filter admits, counted from zero, in rising order.
pub open spec fn admitted_places(tasks: Seq<TaskModel>, filter: Filter) -> Seq<int>
    decreases tasks.len(),
{
    if tasks.len() == 0 {
        Seq::empty()
    } else if filter.admits(tasks.last()) {
        admitted_places(tasks.drop_last(), filter).push(tasks.len() - 1)
    } else {
        admitted_places(tasks.drop_last(), filter)
    }
}

/// A listing shows exactly the tasks that its filter admits, each once and in
/// the order of the list: the task on line `k + 1` is the one at the `k`-th
/// admitted place, the places rise, every one of them holds an admitted task,
/// and no admitted task is left out.
pub proof fn law_listing_shows_the_admitted_tasks(tasks: Seq<TaskModel>, filter: Filter)
    ensures
        shown(tasks, filter).len() == admitted_places(tasks, filter).len(),
        forall|k: int|
            0 <= k < admitted_places(tasks, filter).len() ==> {
                let place = #[trigger] admitted_places(tasks, filter)[k];
                &&& 0 <= place < tasks.len()
                &&& filter.admits(tasks[place])
                &&& shown(tasks, filter)[k] == tasks[place]
            },
        forall|j: int, k: int|
            0 <= j < k < admitted_places(tasks, filter).len() ==> {
                admitted_places(tasks, filter)[j] < admitted_places(tasks, filter)[k]
            },
        forall|i: int|
            0 <= i < tasks.len() && filter.admits(#[trigger] tasks[i]) ==> {
                admitted_places(tasks, filter).contains(i)
            },
    decreases tasks.len(),
{
    reveal(Seq::filter);
    if tasks.len() > 0 {
        let front = tasks.drop_last();
        law_listing_shows_the_admitted_tasks(front, filter);
        let places = admitted_places(tasks, filter);
        let earlier = admitted_places(front, filter);
        assert forall|i: int|
            0 <= i < tasks.len() && filter.admits(#[trigger] tasks[i]) implies places.contains(
            i,
        ) by {
            if i < front.len() {
                assert(filter.admits(front[i]));
                let k = choose|k: int| 0 <= k < earlier.len() && earlier[k] == i;
                assert(places[k] == i);
            } else {
                assert(places[places.len() - 1] == i);
            }
        }
    }
}

/// The completed tasks are the complement of the pending ones: every place of
/// the list is shown by exactly one of the two filters.
pub proof fn law_completed_complements_pending(tasks: Seq<TaskModel>)
    ensures
        forall|i: int|
            0 <= i < tasks.len() ==> {
                admitted_places(tasks, Filter::Pending).contains(i) != admitted_places(
                    tasks,
                    Filter::Completed,
                ).contains(i)
            },
        shown(tasks, Filter::Pending).len() + shown(tasks, Filter::Completed).len() == tasks.len(),
    decreases tasks.len(),
{
    reveal(Seq::filter);
    law_listing_shows_the_admitted_tasks(tasks, Filter::Pending);
    law_listing_shows_the_admitted_tasks(tasks, Filter::Completed);
    let pending = admitted_places(tasks, Filter::Pending);
    let completed = admitted_places(tasks, Filter::Completed);
    assert forall|i: int| 0 <= i < tasks.len() implies pending.contains(i) != completed.contains(
        i,
    ) by {
        if pending.contains(i) {
            let k = choose|k: int| 0 <= k < pending.len() && pending[k] == i;
            assert(!tasks[pending[k]].completed);
        }
        if completed.contains(i) {
            let k = choose|k: int| 0 <= k < completed.len() && completed[k] == i;
            assert(tasks[completed[k]].completed);
        }
        assert(Filter::Pending.admits(tasks[i]) || Filter::Completed.admits(tasks[i]));
    }
    if tasks.len() > 0 {
        law_completed_complements_pending(tasks.drop_last());
    }
}

/// No word, and any word but `pending` and `completed`, shows the whole list.
pub proof fn law_other_words_show_all(tasks: Seq<TaskModel>, word: Option<Seq<char>>)
    requires
        word != Some("pending"@),
        word != Some("completed"@),
    ensures
        shown(tasks, Filter::of(word)) == tasks,
    decreases tasks.len(),
{
    reveal(Seq::filter);
    if tasks.len() > 0 {
        law_other_words_show_all(tasks.drop_last(), word);
        assert(tasks.drop_last().push(tasks.last()) =~= tasks);
    }
}

/// The lines of a listing are numbered from one without a gap: line `k + 1`
/// starts with the number `k + 1`, written in decimal, and shows the `k`-th of
/// the tasks that the filter admits.
pub proof fn law_listing_numbers_from_one(tasks: Seq<TaskModel>, filter: Filter, k: int)
    requires
        0 <= k < shown(tasks, filter).len(),
    ensures
        listing(tasks, filter).len() == shown(tasks, filter).len(),
        listing(tasks, filter)[k] == task_line((k + 1) as nat, shown(tasks, filter)[k]),
        decimal((k + 1) as nat).is_prefix_of(listing(tasks, filter)[k]),
{
    let line = listing(tasks, filter)[k];
    let number = decimal((k + 1) as nat);
    assert(line.subrange(0, number.len() as int) =~= number);
}

/// Whether two texts are the same, character by character.
fn same_text(a: &str, b: &str) -> (same: bool)
    ensures
        same == (a@ == b@),
{
    let x = a.as_bytes();
    let y = b.as_bytes();
    proof {
        encode_utf8_decode_utf8(a@);
        encode_utf8_decode_utf8(b@);
    }
    if x.len() != y.len() {
        return false;
    }
    let mut i: usize = 0;
    while i < x.len()
        invariant
            i <= x@.len(),
            x@.len() == y@.len(),
            a@ == b@ ==> x@ == y@,
            forall|j: int| 0 <= j < i ==> x@[j] == y@[j],
        decreases x@.len() - i,
    {
        if x[i] != y[i] {
            return false;
        }
        i += 1;
    }
    assert(x@ =~= y@);
    true
}

/// Lists the tasks that a filter admits, one line each, numbered from one.
///
/// `filter` is the word that the user gave, if any. Where no task is admitted,
/// the listing is the single line that says so.
pub fn list_tasks(tasks: &Vec<Task>, filter: Option<String>) -> (lines: Vec<String>)
    ensures
        texts(lines@) == listing(models(tasks@), Filter::of(option_text(filter))),
{
    let chosen = Filter::from_word(&filter);
    let mut lines: Vec<String> = Vec::new();
    let mut i: usize = 0;
    while i < tasks.len()
        invariant
            i <= tasks@.len(),
            lines@.len() <= i,
            texts(lines@) == numbered(shown(models(tasks@.take(i as int)), chosen)),
        decreases tasks@.len() - i,
    {
        let task = &tasks[i];
        let ghost seen = models(tasks@.take(i as int));
        proof {
            assert(models(tasks@.take(i + 1)) =~= seen.push(task@));
            seen.lemma_filter_push(task@, admitting(chosen));
        }
        if chosen.accepts(task) {
            let mut line = String::new();
            append_decimal(&mut line, lines.len() + 1);
            line.append(". ");
            line.append(task.description.as_str());
            line.append(" (");
            line.append(
                if task.completed {
                    "Completed"
                } else {
                    "Pending"
                },
            );
            line.append(")");
            let ghost above = lines@;
            let ghost picked = shown(seen, chosen);
            assert(above.len() == texts(above).len() == picked.len());
            assert(line@ =~= task_line((picked.len() + 1) as nat, task@));
            lines.push(line);
            assert(texts(lines@) =~= texts(above).push(line@));
            assert(numbered(picked.push(task@)) =~= numbered(picked).push(line@));
        }
        i += 1;
    }
    assert(tasks@.take(i as int) =~= tasks@);
    if lines.len() == 0 {
        lines.push(String::from_str("No tasks found."));
        assert(texts(lines@) =~= seq![no_tasks_message()]);
    }
    lines
}

} // verus!
