use todo_store::cli::{merge_archive, Cli, SyncOutcome, Todo, TodoData, TodoStatus};

fn sample() -> Cli {
    let mut cli = Cli::new(String::from("/data"));
    cli.add_todo(1, 100, &String::from("one"), None, &1, &false);
    cli.add_todo(2, 200, &String::from("two"), None, &2, &false);
    cli.add_todo(3, 300, &String::from("three"), None, &3, &false);
    cli
}

fn sorted_ids(todos: &Vec<Todo>) -> Vec<u128> {
    let mut out = Vec::new();
    for todo in todos {
        out.push(todo.id);
    }
    out.sort();
    out
}

fn record(id: u128, title: &str, created_at: i64) -> Todo {
    Todo { id, data: TodoData::new(&String::from(title), None, 5, false, created_at) }
}

#[test]
fn sync_moves_the_completed_items_out() {
    let mut cli = sample();
    cli.complete(1, 400);
    cli.complete(3, 500);
    let pending = cli.get(2).unwrap();
    match cli.sync("20240131") {
        SyncOutcome::Archive { file_name, batch } => {
            assert_eq!(file_name, "/data/completed_20240131.json");
            assert_eq!(sorted_ids(&batch), vec![1, 3]);
            for todo in &batch {
                assert_eq!(todo.data.status, TodoStatus::Completed);
                assert!(todo.data.completed_at.is_some());
            }
        }
        SyncOutcome::NothingToArchive => panic!("two items were completed"),
    }
    assert_eq!(cli.len(), 1);
    assert_eq!(cli.get(1), None);
    assert_eq!(cli.get(3), None);
    assert_eq!(cli.get(2).unwrap(), pending);
    assert_eq!(cli.sync("20240131"), SyncOutcome::NothingToArchive);
    assert_eq!(cli.len(), 1);
    assert_eq!(cli.get(2).unwrap(), pending);
}

#[test]
fn sync_with_nothing_finished_changes_nothing() {
    let mut cli = sample();
    cli.start(1, 400);
    let before = cli.ordered_todos();
    assert_eq!(cli.sync("20240131"), SyncOutcome::NothingToArchive);
    assert_eq!(cli.ordered_todos(), before);
    let mut empty = Cli::default();
    assert_eq!(empty.sync("20240131"), SyncOutcome::NothingToArchive);
}

#[test]
fn sync_takes_deleted_items_too() {
    let mut cli = sample();
    cli.delete(2, 400);
    match cli.sync("19991231") {
        SyncOutcome::Archive { file_name, batch } => {
            assert_eq!(file_name, "/data/completed_19991231.json");
            assert_eq!(batch.len(), 1);
            assert_eq!(batch[0].id, 2);
            assert_eq!(batch[0].data.deleted_at, Some(400));
            assert_eq!(batch[0].data.status, TodoStatus::Deleted);
            assert_eq!(batch[0].data.title, "two");
        }
        SyncOutcome::NothingToArchive => panic!("one item was deleted"),
    }
    assert_eq!(sorted_ids(&cli.ordered_todos()), vec![1, 3]);
}

#[test]
fn sync_goes_by_the_timestamps() {
    let mut cli = sample();
    cli.complete(1, 400);
    cli.start(1, 500);
    assert_eq!(cli.get(1).unwrap().status, TodoStatus::InProgress);
    let batch = cli.take_archivable();
    assert_eq!(sorted_ids(&batch), vec![1]);
    assert_eq!(batch[0].data.status, TodoStatus::InProgress);
    assert_eq!(cli.len(), 2);
}

#[test]
fn sync_can_empty_the_collection() {
    let mut cli = sample();
    cli.complete(1, 400);
    cli.delete(2, 400);
    cli.update(3, None, None, None, None, Some(&true), Some(&true), 400);
    let batch = cli.take_archivable();
    assert_eq!(sorted_ids(&batch), vec![1, 2, 3]);
    assert_eq!(cli.len(), 0);
    assert!(cli.take_archivable().is_empty());
}

#[test]
fn file_names_hang_on_the_directory() {
    let cli = Cli::new(String::from("/home/me/todos"));
    assert_eq!(cli.store_file(), "/home/me/todos/todos.json");
    assert_eq!(cli.archive_file("20260102"), "/home/me/todos/completed_20260102.json");
    assert_eq!(Cli::default().store_file(), "./todos.json");
    assert_eq!(Cli::default().archive_file(""), "./completed_.json");
}

#[test]
fn merge_archive_appends_the_batch() {
    let existing = vec![record(1, "old", 1), record(2, "older", 2)];
    let batch = vec![record(9, "new", 3), record(1, "again", 4)];
    let archive = merge_archive(existing, batch);
    assert_eq!(archive.len(), 4);
    assert_eq!(archive[0].data.title, "old");
    assert_eq!(archive[1].data.title, "older");
    assert_eq!(archive[2].data.title, "new");
    assert_eq!(archive[3].data.title, "again");
    assert_eq!(merge_archive(Vec::new(), Vec::new()), Vec::new());
    assert_eq!(merge_archive(Vec::new(), vec![record(5, "x", 1)]), vec![record(5, "x", 1)]);
}

#[test]
fn save_then_load_gives_the_collection_back() {
    let mut cli = sample();
    cli.complete(1, 400);
    cli.update(2, None, Some(&String::from("with notes")), Some(&0), Some(&true), None, None, 450);
    let records = cli.save_todos();
    assert_eq!(records.len(), 3);
    assert_eq!(sorted_ids(&records), vec![1, 2, 3]);
    let mut reversed = cli.save_todos();
    reversed.reverse();
    let mut forward = Cli::new(String::from("/data"));
    forward.load_todos(records);
    let mut backward = Cli::new(String::from("/data"));
    backward.load_todos(reversed);
    assert_eq!(forward.len(), 3);
    assert_eq!(backward.len(), 3);
    for id in [1u128, 2, 3] {
        assert_eq!(forward.get(id), cli.get(id));
        assert_eq!(backward.get(id), cli.get(id));
    }
    assert_eq!(forward.ordered_todos(), cli.ordered_todos());
    assert_eq!(backward.ordered_todos(), cli.ordered_todos());
}

#[test]
fn load_of_no_records_leaves_the_store_empty() {
    let mut cli = Cli::default();
    cli.load_todos(Vec::new());
    assert_eq!(cli.len(), 0);
    assert!(cli.save_todos().is_empty());
}

#[test]
fn load_lets_the_later_record_win() {
    let mut cli = Cli::default();
    cli.load_todos(vec![record(1, "first", 10), record(2, "other", 20), record(1, "second", 30)]);
    assert_eq!(cli.len(), 2);
    assert_eq!(cli.get(1).unwrap().title, "second");
    assert_eq!(cli.get(1).unwrap().created_at, 30);
    assert_eq!(cli.get(2).unwrap().title, "other");
}

#[test]
fn load_adds_to_what_the_store_holds() {
    let mut cli = sample();
    cli.load_todos(vec![record(3, "replaced", 10), record(4, "four", 20)]);
    assert_eq!(cli.len(), 4);
    assert_eq!(cli.get(3).unwrap().title, "replaced");
    assert_eq!(cli.get(1).unwrap().title, "one");
}
