use task_tracker::{list_tasks, Filter, Task};

fn task(description: &str, completed: bool) -> Task {
    Task { description: description.to_string(), completed }
}

fn mixed() -> Vec<Task> {
    vec![
        task("write", false),
        task("read", true),
        task("walk", true),
        task("cook", false),
        task("sleep", true),
    ]
}

fn word(text: &str) -> Option<String> {
    Some(text.to_string())
}

#[test]
fn list_of_an_empty_list_finds_nothing() {
    let tasks: Vec<Task> = Vec::new();
    assert_eq!(list_tasks(&tasks, None), vec!["No tasks found."]);
    assert_eq!(list_tasks(&tasks, word("pending")), vec!["No tasks found."]);
    assert_eq!(list_tasks(&tasks, word("completed")), vec!["No tasks found."]);
    assert_eq!(list_tasks(&tasks, word("anything")), vec!["No tasks found."]);
}

#[test]
fn list_without_a_filter_shows_all() {
    assert_eq!(
        list_tasks(&mixed(), None),
        vec![
            "1. write (Pending)",
            "2. read (Completed)",
            "3. walk (Completed)",
            "4. cook (Pending)",
            "5. sleep (Completed)",
        ]
    );
}

#[test]
fn list_pending_shows_the_open_tasks_renumbered() {
    assert_eq!(
        list_tasks(&mixed(), word("pending")),
        vec!["1. write (Pending)", "2. cook (Pending)"]
    );
}

#[test]
fn list_completed_shows_the_done_tasks_renumbered() {
    assert_eq!(
        list_tasks(&mixed(), word("completed")),
        vec!["1. read (Completed)", "2. walk (Completed)", "3. sleep (Completed)"]
    );
}

#[test]
fn list_with_another_word_shows_all() {
    let all = list_tasks(&mixed(), None);
    for other in [
        "", "all", "done", "Pending", "PENDING", "Completed", " pending", "pending ",
        "pendin", "pendingg", "complete", "completedd", "p\u{e9}nding",
    ] {
        assert_eq!(list_tasks(&mixed(), word(other)), all, "{:?}", other);
    }
}

#[test]
fn list_pending_without_open_tasks_finds_nothing() {
    let tasks = vec![task("a", true), task("b", true)];
    assert_eq!(list_tasks(&tasks, word("pending")), vec!["No tasks found."]);
    assert_eq!(
        list_tasks(&tasks, word("completed")),
        vec!["1. a (Completed)", "2. b (Completed)"]
    );
}

#[test]
fn list_completed_without_done_tasks_finds_nothing() {
    let tasks = vec![task("a", false), task("b", false)];
    assert_eq!(list_tasks(&tasks, word("completed")), vec!["No tasks found."]);
    assert_eq!(
        list_tasks(&tasks, word("pending")),
        vec!["1. a (Pending)", "2. b (Pending)"]
    );
}

#[test]
fn list_pending_and_completed_split_the_list() {
    let tasks = mixed();
    let pending = list_tasks(&tasks, word("pending"));
    let completed = list_tasks(&tasks, word("completed"));
    assert_eq!(pending.len() + completed.len(), tasks.len());
    for t in &tasks {
        let label = if t.completed { "Completed" } else { "Pending" };
        let tail = format!(". {} ({})", t.description, label);
        let in_pending = pending.iter().filter(|l| l.ends_with(&tail)).count();
        let in_completed = completed.iter().filter(|l| l.ends_with(&tail)).count();
        assert_eq!(in_pending, if t.completed { 0 } else { 1 });
        assert_eq!(in_completed, if t.completed { 1 } else { 0 });
    }
}

#[test]
fn list_numbers_past_nine() {
    let tasks: Vec<Task> = (1..=11).map(|i| task(&format!("t{}", i), i % 2 == 0)).collect();
    let lines = list_tasks(&tasks, None);
    assert_eq!(lines.len(), 11);
    assert_eq!(lines[8], "9. t9 (Pending)");
    assert_eq!(lines[9], "10. t10 (Completed)");
    assert_eq!(lines[10], "11. t11 (Pending)");
    for (k, line) in lines.iter().enumerate() {
        assert!(line.starts_with(&format!("{}. ", k + 1)));
    }
}

#[test]
fn list_numbers_a_long_list_without_a_gap() {
    let tasks: Vec<Task> = (0..250).map(|i| task("x", i % 3 == 0)).collect();
    let lines = list_tasks(&tasks, word("pending"));
    let open = tasks.iter().filter(|t| !t.completed).count();
    assert_eq!(lines.len(), open);
    for (k, line) in lines.iter().enumerate() {
        assert_eq!(line, &format!("{}. x (Pending)", k + 1));
    }
}

#[test]
fn list_shows_the_text_verbatim() {
    let tasks = vec![task("", false), task("  a (b) 'c'. 1. ", true), task("\u{4e16}\u{754c}", false)];
    assert_eq!(
        list_tasks(&tasks, None),
        vec!["1.  (Pending)", "2.   a (b) 'c'. 1.  (Completed)", "3. \u{4e16}\u{754c} (Pending)"]
    );
}

#[test]
fn list_leaves_the_list_alone() {
    let tasks = mixed();
    list_tasks(&tasks, word("pending"));
    list_tasks(&tasks, None);
    assert_eq!(tasks, mixed());
}

#[test]
fn filter_from_word_knows_two_words() {
    assert_eq!(Filter::from_word(&word("pending")), Filter::Pending);
    assert_eq!(Filter::from_word(&word("completed")), Filter::Completed);
    assert_eq!(Filter::from_word(&None), Filter::All);
    assert_eq!(Filter::from_word(&word("")), Filter::All);
    assert_eq!(Filter::from_word(&word("all")), Filter::All);
    assert_eq!(Filter::from_word(&word("pendinG")), Filter::All);
    assert_eq!(Filter::from_word(&word("completed\n")), Filter::All);
}

#[test]
fn filter_accepts_by_the_flag() {
    let open = task("open", false);
    let done = task("done", true);
    assert!(Filter::All.accepts(&open));
    assert!(Filter::All.accepts(&done));
    assert!(Filter::Pending.accepts(&open));
    assert!(!Filter::Pending.accepts(&done));
    assert!(!Filter::Completed.accepts(&open));
    assert!(Filter::Completed.accepts(&done));
}
