use task_tracker::{execute, Outcome, Request, Task};

fn task(description: &str, completed: bool) -> Task {
    Task { description: description.to_string(), completed }
}

fn two() -> Vec<Task> {
    vec![task("first", false), task("second", false)]
}

fn printed(lines: &[&str], persist: bool) -> Outcome {
    Outcome {
        printed: lines.iter().map(|l| l.to_string()).collect(),
        diagnostic: None,
        persist,
        exit_code: 0,
    }
}

fn fatal(diagnostic: &str) -> Outcome {
    Outcome {
        printed: Vec::new(),
        diagnostic: Some(diagnostic.to_string()),
        persist: false,
        exit_code: 1,
    }
}

#[test]
fn execute_add() {
    let mut tasks = two();
    let outcome = execute(&mut tasks, Request::Add { description: "third".to_string() });
    assert_eq!(outcome, printed(&["Task 'third' added successfully!"], true));
    assert_eq!(tasks, vec![task("first", false), task("second", false), task("third", false)]);
}

#[test]
fn execute_list_never_persists() {
    let mut tasks = two();
    let outcome = execute(&mut tasks, Request::List { filter: None });
    assert_eq!(outcome, printed(&["1. first (Pending)", "2. second (Pending)"], false));
    assert_eq!(tasks, two());
}

#[test]
fn execute_list_with_a_filter() {
    let mut tasks = vec![task("a", true), task("b", false)];
    let outcome = execute(&mut tasks, Request::List { filter: Some("completed".to_string()) });
    assert_eq!(outcome, printed(&["1. a (Completed)"], false));
    let outcome = execute(&mut tasks, Request::List { filter: Some("pending".to_string()) });
    assert_eq!(outcome, printed(&["1. b (Pending)"], false));
    let outcome = execute(&mut tasks, Request::List { filter: Some("other".to_string()) });
    assert_eq!(outcome, printed(&["1. a (Completed)", "2. b (Pending)"], false));
}

#[test]
fn execute_list_of_nothing() {
    let mut tasks: Vec<Task> = Vec::new();
    let outcome = execute(&mut tasks, Request::List { filter: None });
    assert_eq!(outcome, printed(&["No tasks found."], false));
    assert!(tasks.is_empty());
}

#[test]
fn execute_complete() {
    let mut tasks = two();
    let outcome = execute(&mut tasks, Request::Complete { id: "2".to_string() });
    assert_eq!(outcome, printed(&["Task 2 marked as completed!"], true));
    assert_eq!(tasks, vec![task("first", false), task("second", true)]);
}

#[test]
fn execute_complete_with_a_signed_id() {
    let mut tasks = two();
    let outcome = execute(&mut tasks, Request::Complete { id: "+01".to_string() });
    assert_eq!(outcome, printed(&["Task 1 marked as completed!"], true));
    assert_eq!(tasks, vec![task("first", true), task("second", false)]);
}

#[test]
fn execute_complete_out_of_range_is_reported_and_succeeds() {
    for id in ["0", "3", "5", "18446744073709551615", "4294967295"] {
        let mut tasks = two();
        let outcome = execute(&mut tasks, Request::Complete { id: id.to_string() });
        if id.parse::<usize>().is_ok() {
            assert_eq!(outcome, printed(&["Invalid task ID."], false), "{}", id);
        } else {
            assert_eq!(outcome, fatal("Invalid ID."), "{}", id);
        }
        assert_eq!(tasks, two());
    }
}

#[test]
fn execute_complete_with_no_number_fails() {
    for id in ["", "abc", "-1", "1.0", " 1", "+", "99999999999999999999999999"] {
        let mut tasks = two();
        let outcome = execute(&mut tasks, Request::Complete { id: id.to_string() });
        assert_eq!(outcome, fatal("Invalid ID."), "{:?}", id);
        assert_eq!(tasks, two());
    }
}

#[test]
fn execute_remove() {
    let mut tasks = two();
    let outcome = execute(&mut tasks, Request::Remove { id: "1".to_string() });
    assert_eq!(outcome, printed(&["Task 'first' removed successfully!"], true));
    assert_eq!(tasks, vec![task("second", false)]);
}

#[test]
fn execute_remove_out_of_range_is_reported_and_succeeds() {
    for id in ["0", "3", "100"] {
        let mut tasks = two();
        let outcome = execute(&mut tasks, Request::Remove { id: id.to_string() });
        assert_eq!(outcome, printed(&["Invalid task ID."], false), "{}", id);
        assert_eq!(tasks, two());
    }
}

#[test]
fn execute_remove_with_no_number_fails() {
    for id in ["", "one", "-2", "2nd", "\u{662}"] {
        let mut tasks = two();
        let outcome = execute(&mut tasks, Request::Remove { id: id.to_string() });
        assert_eq!(outcome, fatal("Invalid ID."), "{:?}", id);
        assert_eq!(tasks, two());
    }
}

#[test]
fn execute_unknown_fails() {
    let mut tasks = two();
    let outcome = execute(&mut tasks, Request::Unknown);
    assert_eq!(outcome, fatal("Invalid command."));
    assert_eq!(outcome.exit_code, 1);
    assert_eq!(tasks, two());
}

#[test]
fn execute_persists_exactly_when_the_request_went_through() {
    let requests = vec![
        (Request::Add { description: "x".to_string() }, true),
        (Request::List { filter: None }, false),
        (Request::Complete { id: "1".to_string() }, true),
        (Request::Complete { id: "9".to_string() }, false),
        (Request::Complete { id: "x".to_string() }, false),
        (Request::Remove { id: "2".to_string() }, true),
        (Request::Remove { id: "0".to_string() }, false),
        (Request::Remove { id: "".to_string() }, false),
        (Request::Unknown, false),
    ];
    for (request, persist) in requests {
        let mut tasks = two();
        let outcome = execute(&mut tasks, request);
        assert_eq!(outcome.persist, persist);
        if !persist {
            assert_eq!(tasks, two());
        }
        assert_eq!(outcome.exit_code != 0, outcome.diagnostic.is_some());
        assert_eq!(outcome.printed.is_empty(), outcome.diagnostic.is_some());
    }
}
