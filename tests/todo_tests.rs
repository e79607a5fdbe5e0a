use todo::command::{run_command, Command};
use todo::list::{invalid_index_message, TodoList};
use todo::store::{is_blank_text, load_from};
use todo::task::Task;
use todo::text::decimal;

fn list_of(items: &[&str]) -> TodoList {
    TodoList::from_descriptions(items.iter().map(|s| s.to_string()).collect())
}

fn texts(list: &TodoList) -> Vec<String> {
    list.descriptions()
}

#[test]
fn missing_store_gives_empty_list() {
    let loaded = load_from(None, None);
    assert!(loaded.list.is_empty());
    assert!(!loaded.discarded);
    let loaded = load_from(None, Some(vec!["ignored".to_string()]));
    assert!(loaded.list.is_empty());
    assert!(!loaded.discarded);
}

#[test]
fn empty_store_gives_empty_list() {
    let loaded = load_from(Some(""), None);
    assert!(loaded.list.is_empty());
    assert!(!loaded.discarded);
}

#[test]
fn blank_store_gives_empty_list() {
    let loaded = load_from(Some("  \n\t \r\n"), None);
    assert!(loaded.list.is_empty());
    assert!(!loaded.discarded);
}

#[test]
fn invalid_store_gives_empty_list_with_warning() {
    let loaded = load_from(Some("this is { not json"), None);
    assert!(loaded.list.is_empty());
    assert!(loaded.discarded);
}

#[test]
fn decoded_store_gives_its_tasks() {
    let text = r#"{"tasks":[{"description":"buy milk"},{"description":"write report"}]}"#;
    let decoded = vec!["buy milk".to_string(), "write report".to_string()];
    let loaded = load_from(Some(text), Some(decoded));
    assert!(!loaded.discarded);
    assert_eq!(texts(&loaded.list), vec!["buy milk", "write report"]);
}

#[test]
fn blank_detection_trims_white_space() {
    assert!(is_blank_text(""));
    assert!(is_blank_text(" \t\n"));
    assert!(is_blank_text("\u{2003}\u{a0}"));
    assert!(!is_blank_text("  x  "));
    assert!(!is_blank_text("{}"));
}

#[test]
fn add_then_reload_ends_with_description() {
    let mut list = list_of(&["first"]);
    list.add_task(Task::new("second one".to_string()));
    let saved = list.descriptions();
    let loaded = load_from(Some("{\n  \"tasks\": []\n}"), Some(saved));
    assert_eq!(texts(&loaded.list).last().unwrap(), "second one");
    assert_eq!(loaded.list.len(), 2);
}

#[test]
fn add_accepts_empty_description() {
    let mut list = TodoList::new();
    list.add_task(Task::new(String::new()));
    assert_eq!(texts(&list), vec![""]);
}

#[test]
fn remove_middle_keeps_order() {
    let mut list = list_of(&["a", "b", "c"]);
    assert_eq!(list.remove_task(2), Ok(()));
    assert_eq!(texts(&list), vec!["a", "c"]);
}

#[test]
fn remove_last_and_first() {
    let mut list = list_of(&["a", "b", "c"]);
    assert_eq!(list.remove_task(3), Ok(()));
    assert_eq!(texts(&list), vec!["a", "b"]);
    assert_eq!(list.remove_task(1), Ok(()));
    assert_eq!(texts(&list), vec!["b"]);
    assert_eq!(list.remove_task(1), Ok(()));
    assert!(list.is_empty());
}

#[test]
fn remove_zero_fails_without_change() {
    let mut list = list_of(&["a", "b"]);
    let r = list.remove_task(0);
    assert_eq!(
        r,
        Err("Invalid index 0. Please use a number between 1 and 2".to_string())
    );
    assert_eq!(texts(&list), vec!["a", "b"]);
}

#[test]
fn remove_past_end_fails_without_change() {
    let mut list = list_of(&["a", "b", "c"]);
    let r = list.remove_task(4);
    assert_eq!(
        r,
        Err("Invalid index 4. Please use a number between 1 and 3".to_string())
    );
    assert_eq!(texts(&list), vec!["a", "b", "c"]);
}

#[test]
fn remove_from_empty_fails() {
    let mut list = TodoList::new();
    let r = list.remove_task(1);
    assert_eq!(
        r,
        Err("Invalid index 1. Please use a number between 1 and 0".to_string())
    );
    assert!(list.is_empty());
}

#[test]
fn descriptions_round_trip_keeps_order() {
    let items = vec![
        "buy milk".to_string(),
        "".to_string(),
        "quote \" and \\ slash".to_string(),
        "buy milk".to_string(),
        "ünïcödé ✓".to_string(),
    ];
    let list = TodoList::from_descriptions(items.clone());
    assert_eq!(list.descriptions(), items);
    let again = TodoList::from_descriptions(list.descriptions());
    assert_eq!(again.descriptions(), items);
}

#[test]
fn add_buy_milk_then_list() {
    let mut list = load_from(None, None).list;
    let out = run_command(&mut list, Command::Add { task: "buy milk".to_string() });
    assert!(out.changed);
    assert!(out.error.is_none());
    assert_eq!(out.output, vec!["Added task: \"buy milk\""]);
    assert_eq!(texts(&list), vec!["buy milk"]);
    let shown = run_command(&mut list, Command::List);
    assert!(!shown.changed);
    assert!(shown.error.is_none());
    assert_eq!(shown.output, vec!["Your tasks:", "1. buy milk"]);
}

#[test]
fn remove_first_of_two() {
    let mut list = list_of(&["buy milk", "write report"]);
    let out = run_command(&mut list, Command::Remove { index: 1 });
    assert!(out.changed);
    assert!(out.error.is_none());
    assert_eq!(out.output, vec!["Removed task at index 1"]);
    assert_eq!(texts(&list), vec!["write report"]);
    assert_eq!(list.list_tasks(), vec!["Your tasks:", "1. write report"]);
}

#[test]
fn remove_two_of_one_fails() {
    let mut list = list_of(&["only"]);
    let out = run_command(&mut list, Command::Remove { index: 2 });
    assert!(!out.changed);
    assert!(out.output.is_empty());
    let err = out.error.unwrap();
    assert_eq!(
        err,
        "Error: Invalid index 2. Please use a number between 1 and 1"
    );
    assert!(err.contains("1 and 1"));
    assert_eq!(texts(&list), vec!["only"]);
}

#[test]
fn list_empty_says_no_tasks() {
    let mut list = TodoList::new();
    assert_eq!(list.list_tasks(), vec!["No tasks found."]);
    let out = run_command(&mut list, Command::List);
    assert_eq!(out.output, vec!["No tasks found."]);
    assert!(!out.changed);
}

#[test]
fn list_numbers_from_one() {
    let list = list_of(&["a", "b", "c", "d", "e", "f", "g", "h", "i", "j", "k"]);
    let lines = list.list_tasks();
    assert_eq!(lines.len(), 12);
    assert_eq!(lines[0], "Your tasks:");
    assert_eq!(lines[1], "1. a");
    assert_eq!(lines[10], "10. j");
    assert_eq!(lines[11], "11. k");
}

#[test]
fn decimal_renders_numbers() {
    assert_eq!(decimal(0), "0");
    assert_eq!(decimal(7), "7");
    assert_eq!(decimal(10), "10");
    assert_eq!(decimal(1234), "1234");
    assert_eq!(decimal(usize::MAX), usize::MAX.to_string());
}

#[test]
fn invalid_index_message_gives_range() {
    assert_eq!(
        invalid_index_message(0, 0),
        "Invalid index 0. Please use a number between 1 and 0"
    );
    assert_eq!(
        invalid_index_message(12, 5),
        "Invalid index 12. Please use a number between 1 and 5"
    );
}

#[test]
fn task_keeps_description() {
    let t = Task::new("write report".to_string());
    assert_eq!(t.description(), "write report");
}
