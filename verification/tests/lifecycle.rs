use todo_store::cli::{Cli, Outcome, Todo, TodoData, TodoStatus};
use todo_store::item::DEFAULT_PRIORITY;

fn store_with(id: u128, in_progress: bool, now: i64) -> Cli {
    let mut cli = Cli::new(String::from("."));
    cli.add_todo(id, now, &String::from("write report"), None, &DEFAULT_PRIORITY, &in_progress);
    cli
}

#[test]
fn add_creates_a_pending_item() {
    let cli = store_with(7, false, 1_000);
    assert_eq!(cli.len(), 1);
    let data = cli.get(7).unwrap();
    assert_eq!(data.title, "write report");
    assert_eq!(data.description, None);
    assert_eq!(data.priority, 255);
    assert_eq!(data.status, TodoStatus::Pending);
    assert_eq!(data.created_at, 1_000);
    assert_eq!(data.in_progress_at, None);
    assert_eq!(data.completed_at, None);
    assert_eq!(data.deleted_at, None);
}

#[test]
fn add_in_progress_sets_the_start_time() {
    let mut cli = Cli::new(String::from("."));
    let description = String::from("before friday");
    cli.add_todo(9, 2_000, &String::from("call"), Some(&description), &3, &true);
    let data = cli.get(9).unwrap();
    assert_eq!(data.status, TodoStatus::InProgress);
    assert_eq!(data.created_at, 2_000);
    assert_eq!(data.in_progress_at, Some(2_000));
    assert_eq!(data.completed_at, None);
    assert_eq!(data.deleted_at, None);
    assert_eq!(data.description, Some(String::from("before friday")));
    assert_eq!(data.priority, 3);
}

#[test]
fn add_under_a_held_identifier_replaces_the_item() {
    let mut cli = store_with(7, false, 1_000);
    cli.add_todo(7, 5_000, &String::from("other"), None, &1, &false);
    assert_eq!(cli.len(), 1);
    assert_eq!(cli.get(7).unwrap().title, "other");
    assert_eq!(cli.get(7).unwrap().created_at, 5_000);
}

#[test]
fn default_priority_is_the_lowest_rank() {
    assert_eq!(DEFAULT_PRIORITY, 255);
    assert_eq!(DEFAULT_PRIORITY, u8::MAX);
}

#[test]
fn complete_twice_sets_completed_at_once() {
    let mut cli = store_with(7, false, 1_000);
    assert_eq!(cli.complete(7, 1_500), Outcome::Applied);
    let first = cli.get(7).unwrap();
    assert_eq!(first.completed_at, Some(1_500));
    assert_eq!(first.status, TodoStatus::Completed);
    assert_eq!(cli.complete(7, 9_999), Outcome::AlreadyCompleted);
    assert_eq!(cli.get(7).unwrap(), first);
}

#[test]
fn delete_twice_sets_deleted_at_once() {
    let mut cli = store_with(7, false, 1_000);
    assert_eq!(cli.delete(7, 1_200), Outcome::Applied);
    let first = cli.get(7).unwrap();
    assert_eq!(first.deleted_at, Some(1_200));
    assert_eq!(first.status, TodoStatus::Deleted);
    assert_eq!(cli.delete(7, 1_300), Outcome::AlreadyDeleted);
    assert_eq!(cli.get(7).unwrap(), first);
    assert_eq!(cli.len(), 1);
}

#[test]
fn start_keeps_the_first_start_time() {
    let mut cli = store_with(7, false, 1_000);
    assert_eq!(cli.start(7, 1_100), Outcome::Applied);
    assert_eq!(cli.get(7).unwrap().in_progress_at, Some(1_100));
    assert_eq!(cli.get(7).unwrap().status, TodoStatus::InProgress);
    assert_eq!(cli.start(7, 1_900), Outcome::Applied);
    assert_eq!(cli.get(7).unwrap().in_progress_at, Some(1_100));
    assert_eq!(cli.get(7).unwrap().status, TodoStatus::InProgress);
}

#[test]
fn start_after_complete_changes_the_status_only() {
    let mut cli = store_with(7, false, 1_000);
    cli.complete(7, 1_500);
    assert_eq!(cli.start(7, 1_600), Outcome::Applied);
    let data = cli.get(7).unwrap();
    assert_eq!(data.status, TodoStatus::InProgress);
    assert_eq!(data.completed_at, Some(1_500));
    assert_eq!(data.in_progress_at, Some(1_600));
    assert_eq!(cli.complete(7, 1_700), Outcome::AlreadyCompleted);
    assert_eq!(cli.get(7).unwrap().status, TodoStatus::InProgress);
}

#[test]
fn operations_on_a_missing_item_change_nothing() {
    let mut cli = store_with(7, false, 1_000);
    let before = cli.get(7).unwrap();
    assert_eq!(cli.start(8, 1), Outcome::NotFound);
    assert_eq!(cli.complete(8, 1), Outcome::NotFound);
    assert_eq!(cli.delete(8, 1), Outcome::NotFound);
    assert_eq!(
        cli.update(8, Some(&String::from("x")), None, None, None, None, None, 1),
        Outcome::NotFound
    );
    assert_eq!(cli.len(), 1);
    assert_eq!(cli.get(7).unwrap(), before);
    assert_eq!(cli.get(8), None);
}

#[test]
fn update_with_completed_and_deleted_ends_deleted() {
    let mut cli = store_with(7, false, 1_000);
    let outcome = cli.update(7, None, None, None, None, Some(&true), Some(&true), 1_400);
    assert_eq!(outcome, Outcome::Applied);
    let data = cli.get(7).unwrap();
    assert_eq!(data.status, TodoStatus::Deleted);
    assert_eq!(data.completed_at, Some(1_400));
    assert_eq!(data.deleted_at, Some(1_400));
    assert_eq!(data.in_progress_at, None);
    assert_eq!(data.created_at, 1_000);
}

#[test]
fn update_with_all_three_flags_sets_all_three_times() {
    let mut cli = store_with(7, false, 1_000);
    cli.update(7, None, None, None, Some(&true), Some(&true), Some(&true), 1_400);
    let data = cli.get(7).unwrap();
    assert_eq!(data.status, TodoStatus::Deleted);
    assert_eq!(data.in_progress_at, Some(1_400));
    assert_eq!(data.completed_at, Some(1_400));
    assert_eq!(data.deleted_at, Some(1_400));
}

#[test]
fn update_completed_sets_the_status_again() {
    let mut cli = store_with(7, false, 1_000);
    cli.complete(7, 1_100);
    cli.start(7, 1_200);
    cli.update(7, None, None, None, None, Some(&true), None, 1_300);
    let data = cli.get(7).unwrap();
    assert_eq!(data.status, TodoStatus::Completed);
    assert_eq!(data.completed_at, Some(1_100));
}

#[test]
fn update_ignores_flags_that_are_false() {
    let mut cli = store_with(7, false, 1_000);
    let before = cli.get(7).unwrap();
    let outcome = cli.update(7, None, None, None, Some(&false), Some(&false), Some(&false), 1_400);
    assert_eq!(outcome, Outcome::Applied);
    assert_eq!(cli.get(7).unwrap(), before);
}

#[test]
fn update_writes_the_fields_that_are_present() {
    let mut cli = store_with(7, false, 1_000);
    let title = String::from("new title");
    let description = String::from("details");
    cli.update(7, Some(&title), Some(&description), Some(&4), None, None, None, 1_400);
    let data = cli.get(7).unwrap();
    assert_eq!(data.title, "new title");
    assert_eq!(data.description, Some(String::from("details")));
    assert_eq!(data.priority, 4);
    assert_eq!(data.status, TodoStatus::Pending);
    assert_eq!(data.created_at, 1_000);
    cli.update(7, None, None, None, None, None, None, 1_500);
    assert_eq!(cli.get(7).unwrap(), data);
}

#[test]
fn item_transitions_follow_the_sticky_rule() {
    let mut data = TodoData::new(&String::from("t"), None, 1, false, 10);
    data.mark_completed(20);
    data.mark_completed(30);
    assert_eq!(data.completed_at, Some(20));
    assert_eq!(data.status, TodoStatus::Completed);
    data.mark_deleted(40);
    assert_eq!(data.deleted_at, Some(40));
    assert_eq!(data.status, TodoStatus::Deleted);
    assert!(!data.complete(50));
    assert_eq!(data.status, TodoStatus::Deleted);
    assert!(!data.delete(60));
    assert_eq!(data.deleted_at, Some(40));
    assert!(data.is_archivable());
    data.start(70);
    assert_eq!(data.in_progress_at, Some(70));
    assert_eq!(data.created_at, 10);
}

#[test]
fn clone_keeps_every_field() {
    let mut data = TodoData::new(&String::from("t"), Some(&String::from("d")), 1, true, 10);
    data.complete(11);
    let todo = Todo { id: 3, data };
    let copy = todo.clone();
    assert_eq!(copy, todo);
    assert_eq!(copy.data.completed_at, Some(11));
}

#[test]
fn new_store_is_empty() {
    let cli = Cli::new(String::from("/tmp/todos"));
    assert_eq!(cli.len(), 0);
    assert_eq!(cli.file_path(), "/tmp/todos");
    let other = Cli::default();
    assert_eq!(other.len(), 0);
    assert_eq!(other.file_path(), ".");
    assert!(other.ordered_todos().is_empty());
}
