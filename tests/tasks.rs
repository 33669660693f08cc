use tasker::date::{is_late, matches_datetime_shape, validate_date, DateTime, TaskError};
use tasker::report::{render_task, Report, Signs};
use tasker::task::{new_task, row_index, Task, TaskList};

fn at(year: u32, month: u32, day: u32, hour: u32, minute: u32, second: u32) -> DateTime {
    DateTime { year, month, day, hour, minute, second }
}

fn signs() -> Signs {
    Signs { warning: "!".to_string(), done: "[x]".to_string(), not_done: "[ ]".to_string() }
}

fn three_tasks() -> TaskList {
    let mut list = TaskList::new();
    new_task(&mut list, "first".to_string(), "".to_string()).unwrap();
    new_task(&mut list, "second".to_string(), "2022-02-01 20:00:00".to_string()).unwrap();
    new_task(&mut list, "third".to_string(), "".to_string()).unwrap();
    list
}

#[test]
fn test_new_task() {
    let mut list = TaskList::new();
    assert_eq!(
        new_task(&mut list, "New Task".to_string(), "2022-02-01 20:00:00".to_string()).unwrap(),
        "New Task".to_string()
    )
}

#[test]
#[should_panic]
fn test_new_task_fail() {
    let mut list = TaskList::new();
    assert!(new_task(&mut list, "New Task".to_string(), "invalid date".to_string()).is_ok())
}

#[test]
fn created_task_is_retrievable() {
    let mut list = TaskList::new();
    let r = new_task(&mut list, "New Task".to_string(), "2022-02-01 20:00:00".to_string());
    assert_eq!(r, Ok("New Task".to_string()));
    assert_eq!(list.len(), 1);
    let t = list.get(1).unwrap();
    assert_eq!(t.name, "New Task");
    assert_eq!(t.date, "2022-02-01 20:00:00");
    assert!(!t.done);
}

#[test]
fn invalid_date_adds_nothing() {
    let mut list = three_tasks();
    let r = new_task(&mut list, "New Task".to_string(), "invalid date".to_string());
    assert_eq!(r, Err(TaskError::InvalidDate));
    assert_eq!(list.len(), 3);
    assert_eq!(list.get(3).unwrap().name, "third");
    assert!(list.get(4).is_none());
}

#[test]
fn task_without_date_is_accepted() {
    let mut list = TaskList::new();
    assert_eq!(new_task(&mut list, "a".to_string(), "".to_string()), Ok("a".to_string()));
    assert_eq!(list.get(1).unwrap().date, "");
}

#[test]
fn validate_date_cases() {
    assert_eq!(validate_date(""), Ok(()));
    assert_eq!(validate_date("2022-02-01 20:00:00"), Ok(()));
    assert_eq!(validate_date("2024-02-29 23:59:59"), Ok(()));
    assert_eq!(validate_date("2023-02-29 10:00:00"), Err(TaskError::InvalidDate));
    assert_eq!(validate_date("2022-13-01 10:00:00"), Err(TaskError::InvalidDate));
    assert_eq!(validate_date("2022-02-01 24:00:00"), Err(TaskError::InvalidDate));
    assert_eq!(validate_date("2022-2-1 20:00:00"), Err(TaskError::InvalidDate));
    assert_eq!(validate_date("2022-02-01T20:00:00"), Err(TaskError::InvalidDate));
    assert_eq!(validate_date("2022-02-01 20:00:00 "), Err(TaskError::InvalidDate));
    assert_eq!(validate_date("2022-02-01"), Err(TaskError::InvalidDate));
    assert_eq!(validate_date("invalid date"), Err(TaskError::InvalidDate));
}

#[test]
fn shape_check() {
    assert!(matches_datetime_shape("2022-02-01 20:00:00"));
    assert!(matches_datetime_shape("9999-99-99 99:99:99"));
    assert!(!matches_datetime_shape("2022/02/01 20:00:00"));
    assert!(!matches_datetime_shape(""));
}

#[test]
fn error_message() {
    assert_eq!(TaskError::InvalidDate.message(), "not a valid datetime.");
}

#[test]
fn empty_date_never_late() {
    assert!(!is_late("", &at(0, 1, 1, 0, 0, 0)));
    assert!(!is_late("", &at(9999, 12, 31, 23, 59, 59)));
}

#[test]
fn lateness() {
    let due = "2022-02-01 20:00:00";
    assert!(is_late(due, &at(2022, 2, 1, 20, 0, 0)));
    assert!(is_late(due, &at(2022, 2, 1, 20, 0, 1)));
    assert!(is_late(due, &at(2023, 1, 1, 0, 0, 0)));
    assert!(!is_late(due, &at(2022, 2, 1, 19, 59, 59)));
    assert!(!is_late(due, &at(2021, 12, 31, 23, 59, 59)));
    assert!(!is_late("2022-02-30 10:00:00", &at(2030, 1, 1, 0, 0, 0)));
}

#[test]
fn delete_renumbers_positions() {
    let mut list = three_tasks();
    list.delete_task(1);
    assert_eq!(list.len(), 2);
    assert_eq!(list.get(1).unwrap().name, "second");
    assert_eq!(list.get(2).unwrap().name, "third");
}

#[test]
fn delete_missing_position_is_a_no_op() {
    let mut list = three_tasks();
    list.delete_task(0);
    list.delete_task(4);
    assert_eq!(list.len(), 3);
    assert_eq!(list.get(1).unwrap().name, "first");
}

#[test]
fn check_then_uncheck() {
    let mut list = three_tasks();
    list.set_done(2, true);
    assert!(list.get(2).unwrap().done);
    list.set_done(2, false);
    let t = list.get(2).unwrap();
    assert!(!t.done);
    assert_eq!(t.name, "second");
    assert_eq!(t.date, "2022-02-01 20:00:00");
    assert!(!list.get(1).unwrap().done);
    list.set_done(9, true);
    assert_eq!(list.len(), 3);
}

#[test]
fn rename() {
    let mut list = three_tasks();
    list.rename_task(3, "renamed".to_string());
    assert_eq!(list.get(3).unwrap().name, "renamed");
    list.rename_task(4, "nothing".to_string());
    assert_eq!(list.len(), 3);
}

#[test]
fn positions_to_indices() {
    assert_eq!(row_index(1, 3), Some(0));
    assert_eq!(row_index(3, 3), Some(2));
    assert_eq!(row_index(0, 3), None);
    assert_eq!(row_index(4, 3), None);
    assert_eq!(row_index(1, 0), None);
}

#[test]
fn stored_rows_are_checked() {
    let mut list = TaskList::new();
    let good = Task { name: "a".to_string(), date: "2022-02-01 20:00:00".to_string(), done: true };
    assert_eq!(list.push_stored(good), Ok(()));
    let bad = Task { name: "b".to_string(), date: "tomorrow".to_string(), done: false };
    assert_eq!(list.push_stored(bad), Err(TaskError::InvalidDate));
    assert_eq!(list.len(), 1);
    assert!(list.get(1).unwrap().done);
}

#[test]
fn report_of_empty_list() {
    let list = TaskList::new();
    let r = list.report(&at(2022, 1, 1, 0, 0, 0));
    assert_eq!(r, Report { total: 0, done: 0, late: 0, done_percent: 0, late_percent: 0 });
}

#[test]
fn report_counts() {
    let mut list = TaskList::new();
    new_task(&mut list, "a".to_string(), "2022-01-01 00:00:00".to_string()).unwrap();
    new_task(&mut list, "b".to_string(), "2022-01-01 00:00:00".to_string()).unwrap();
    new_task(&mut list, "c".to_string(), "2030-01-01 00:00:00".to_string()).unwrap();
    new_task(&mut list, "d".to_string(), "".to_string()).unwrap();
    list.set_done(1, true);
    let r = list.report(&at(2023, 1, 1, 0, 0, 0));
    assert_eq!(r, Report { total: 4, done: 1, late: 1, done_percent: 25, late_percent: 33 });
}

#[test]
fn report_all_done() {
    let mut list = three_tasks();
    list.set_done(1, true);
    list.set_done(2, true);
    list.set_done(3, true);
    let r = list.report(&at(2023, 1, 1, 0, 0, 0));
    assert_eq!(r, Report { total: 3, done: 3, late: 0, done_percent: 100, late_percent: 0 });
}

#[test]
fn render_lines() {
    let now = at(2023, 1, 1, 0, 0, 0);
    let mut list = three_tasks();
    list.set_done(1, true);
    let lines = list.list_lines(&signs(), &now);
    assert_eq!(
        lines,
        vec![
            "[x] 1. first".to_string(),
            "[ ] ! 2. second (2022-02-01 20:00:00)".to_string(),
            "[ ] 3. third".to_string(),
        ]
    );
}

#[test]
fn listing_marks_late_even_when_done() {
    let now = at(2023, 1, 1, 0, 0, 0);
    let t = Task { name: "x".to_string(), date: "2022-02-01 20:00:00".to_string(), done: true };
    assert_eq!(render_task(&t, 120, &signs(), &now), "[x] ! 120. x (2022-02-01 20:00:00)");
    let early = at(2022, 1, 1, 0, 0, 0);
    assert_eq!(render_task(&t, 7, &signs(), &early), "[x] 7. x (2022-02-01 20:00:00)");
}
