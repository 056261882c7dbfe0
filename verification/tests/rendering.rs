use todo_store::cli::{Cli, Todo, TodoData, TodoStatus};
use todo_store::term::{
    center, clip, decimal, initial_of, large_row, layout_for, name_of, print_todo,
    print_todo_for, print_todo_large, print_todo_small, shorten, small_row, splash, splash_for,
    Layout, SMALL_TERM,
};

const ID: u128 = 0xa1a2a3a4_b1b2_c1c2_d1d2_d3d4d5d6d7d8;
const ID_TEXT: &str = "a1a2a3a4-b1b2-c1c2-d1d2-d3d4d5d6d7d8";
const DAY: i64 = 1_431_648_000;

fn todo(title: &str, description: Option<&str>, priority: u8) -> Todo {
    let owned = description.map(String::from);
    Todo { id: ID, data: TodoData::new(&String::from(title), owned.as_ref(), priority, false, DAY) }
}

#[test]
fn layout_changes_above_eighty_columns() {
    assert_eq!(SMALL_TERM, 80);
    assert_eq!(layout_for(None), Layout::Small);
    assert_eq!(layout_for(Some(0)), Layout::Small);
    assert_eq!(layout_for(Some(80)), Layout::Small);
    assert_eq!(layout_for(Some(81)), Layout::Large);
    assert_eq!(layout_for(Some(u16::MAX)), Layout::Large);
}

#[test]
fn center_pads_both_sides() {
    assert_eq!(center("ab", 6), "  ab  ");
    assert_eq!(center("abc", 6), " abc  ");
    assert_eq!(center("abcdef", 6), "abcdef");
    assert_eq!(center("abcdefgh", 6), "abcdefgh");
    assert_eq!(center("", 3), "   ");
    assert_eq!(center("x", 0), "x");
    assert_eq!(center("\u{e9}t\u{e9}", 5), " \u{e9}t\u{e9} ");
    for width in 0..12usize {
        for text in ["", "a", "ab", "abc", "abcdefghijk"] {
            assert_eq!(center(text, width), format!("{:^1$}", text, width));
        }
    }
}

#[test]
fn clip_cuts_long_texts() {
    assert_eq!(clip("short", 10), "short");
    assert_eq!(clip("exactly 10", 10), "exactly 10");
    assert_eq!(clip("eleven char", 10), "eleven ...");
    assert_eq!(clip("a long title that goes on", 10), "a long ...");
    assert_eq!(clip("abcd", 3), "...");
    assert_eq!(clip("abcd", 2), "...");
    assert_eq!(clip("", 0), "");
    assert_eq!(clip("a", 0), "...");
}

#[test]
fn shorten_keeps_the_front() {
    assert_eq!(shorten(ID_TEXT, 8), "a1a2a3a4");
    assert_eq!(shorten("abc", 8), "abc");
    assert_eq!(shorten("abcdefgh", 8), "abcdefgh");
    assert_eq!(shorten("abc", 0), "");
}

#[test]
fn decimal_writes_numbers() {
    assert_eq!(decimal(0), "0");
    assert_eq!(decimal(7), "7");
    assert_eq!(decimal(10), "10");
    assert_eq!(decimal(255), "255");
    assert_eq!(decimal(1_000_000), "1000000");
    assert_eq!(decimal(usize::MAX), usize::MAX.to_string());
    for d in 0..10usize {
        assert_eq!(decimal(d), d.to_string());
    }
}

#[test]
fn status_texts() {
    assert_eq!(initial_of(TodoStatus::Pending), "P");
    assert_eq!(initial_of(TodoStatus::InProgress), "I");
    assert_eq!(initial_of(TodoStatus::Completed), "C");
    assert_eq!(initial_of(TodoStatus::Deleted), "D");
    assert_eq!(name_of(TodoStatus::Pending), "Pending");
    assert_eq!(name_of(TodoStatus::InProgress), "InProgress");
    assert_eq!(name_of(TodoStatus::Completed), "Completed");
    assert_eq!(name_of(TodoStatus::Deleted), "Deleted");
    for status in [
        TodoStatus::Pending,
        TodoStatus::InProgress,
        TodoStatus::Completed,
        TodoStatus::Deleted,
    ] {
        assert_eq!(name_of(status), format!("{:?}", status));
    }
}

#[test]
fn splash_lines() {
    assert_eq!(splash_for(None), "   ID    |   TITLE    | STATUS");
    assert_eq!(splash_for(Some(80)), format!("{:^8} | {:^10} | STATUS", "ID", "TITLE"));
    assert_eq!(
        splash_for(Some(120)),
        format!(
            "{:^36} | {:^30} | {:^20} | {:^2} | {:^10} | CREATED",
            "ID", "TITLE", "DESCRIPTION", "PRIORITY", "STATUS",
        )
    );
    let here = splash();
    assert!(here == splash_for(Some(80)) || here == splash_for(Some(81)));
}

#[test]
fn small_row_shows_position_title_and_status() {
    let item = todo("Buy milk", None, 1);
    assert_eq!(print_todo_small(false, &item, 0), "   0     |  Buy milk  | P");
    assert_eq!(
        print_todo_small(false, &item, 12),
        format!("{:^8} | {:^10} | {}", "12", "Buy milk", "P")
    );
    assert_eq!(small_row("3", &item), format!("{:^8} | {:^10} | {}", "3", "Buy milk", "P"));
}

#[test]
fn small_row_cuts_the_title_and_the_identifier() {
    let mut item = todo("Prepare the quarterly report", None, 1);
    item.data.start(DAY + 5);
    assert_eq!(print_todo_small(true, &item, 4), "a1a2a3a4 | Prepare... | I");
    item.data.complete(DAY + 6);
    assert_eq!(print_todo_small(false, &item, 4), "   4     | Prepare... | C");
    item.data.delete(DAY + 7);
    assert_eq!(print_todo_small(false, &item, 123456789), "123456789 | Prepare... | D");
}

#[test]
fn large_row_shows_every_column() {
    let item = todo("Buy milk", Some("two litres"), 7);
    let expected = format!(
        "{:^36} | {:^30} | {:^20} | {:^2} | {:^10} | {}",
        "5", "Buy milk", "two litres", 7, "Pending", "2015-05-15"
    );
    assert_eq!(print_todo_large(false, &item, 5), Some(expected));
    let verbose = format!(
        "{:^36} | {:^30} | {:^20} | {:^2} | {:^10} | {}",
        ID_TEXT, "Buy milk", "two litres", 7, "Pending", "2015-05-15"
    );
    assert_eq!(print_todo_large(true, &item, 5), Some(verbose));
}

#[test]
fn large_row_cuts_title_and_description() {
    let mut item = todo(
        "A title that is clearly longer than thirty characters",
        Some("A description longer than twenty"),
        255,
    );
    item.data.start(DAY);
    let expected = format!(
        "{:^36} | {:^30} | {:^20} | {:^2} | {:^10} | {}",
        "0", "A title that is clearly lon...", "A description lon...", 255, "InProgress", "2015-05-15"
    );
    assert_eq!(print_todo_large(false, &item, 0), Some(expected));
    let none = todo("t", None, 0);
    assert_eq!(
        large_row("1", &none, "2015-05-15"),
        format!("{:^36} | {:^30} | {:^20} | {:^2} | {:^10} | {}", "1", "t", "", 0, "Pending", "2015-05-15")
    );
}

#[test]
fn large_row_shows_the_day_of_creation() {
    let mut item = todo("t", None, 1);
    item.data.created_at = 0;
    assert!(print_todo_large(false, &item, 0).unwrap().ends_with(" | 1970-01-01"));
    item.data.created_at = 86_399;
    assert!(print_todo_large(false, &item, 0).unwrap().ends_with(" | 1970-01-01"));
    item.data.created_at = 86_400;
    assert!(print_todo_large(false, &item, 0).unwrap().ends_with(" | 1970-01-02"));
    item.data.created_at = -1;
    assert!(print_todo_large(false, &item, 0).unwrap().ends_with(" | 1969-12-31"));
    item.data.created_at = 951_782_400;
    assert!(print_todo_large(false, &item, 0).unwrap().ends_with(" | 2000-02-29"));
}

#[test]
fn large_row_needs_a_day_in_the_calendar() {
    let mut item = todo("t", None, 1);
    item.data.created_at = i64::MAX;
    assert_eq!(print_todo_large(false, &item, 0), None);
    assert_eq!(print_todo_for(Some(200), false, &item, 0), None);
    item.data.created_at = i64::MIN;
    assert_eq!(print_todo_large(true, &item, 0), None);
    assert!(print_todo_for(Some(20), false, &item, 0).is_some());
    assert!(print_todo_for(None, true, &item, 0).is_some());
}

#[test]
fn print_todo_picks_the_layout() {
    let item = todo("Buy milk", Some("two litres"), 7);
    assert_eq!(print_todo_for(None, false, &item, 2), Some(print_todo_small(false, &item, 2)));
    assert_eq!(print_todo_for(Some(80), true, &item, 2), Some(print_todo_small(true, &item, 2)));
    assert_eq!(print_todo_for(Some(81), true, &item, 2), print_todo_large(true, &item, 2));
    let here = print_todo(false, &item, 2);
    assert!(here == print_todo_for(Some(80), false, &item, 2) || here == print_todo_for(Some(81), false, &item, 2));
}

#[test]
fn list_shows_the_items_in_derived_order() {
    let mut cli = Cli::new(String::from("."));
    cli.add_todo(30, DAY, &String::from("low"), None, &9, &false);
    cli.add_todo(10, DAY, &String::from("high"), None, &1, &true);
    cli.add_todo(20, DAY + 1, &String::from("later"), None, &1, &false);
    let lines = cli.list_todos(false, None).unwrap();
    assert_eq!(
        lines,
        vec![
            String::from("   ID    |   TITLE    | STATUS"),
            String::from("   0     |    high    | I"),
            String::from("   1     |   later    | P"),
            String::from("   2     |    low     | P"),
        ]
    );
    let wide = cli.list_todos(true, Some(132)).unwrap();
    assert_eq!(wide.len(), 4);
    assert_eq!(wide[0], splash_for(Some(132)));
    let order = cli.ordered_todos();
    for i in 0..3 {
        assert_eq!(Some(wide[i + 1].clone()), print_todo_large(true, &order[i], i));
    }
    assert!(wide[1].starts_with("00000000-0000-0000-0000-00000000000a | "));
    assert_eq!(Cli::default().list_todos(false, None), Some(vec![splash_for(None)]));
}

#[test]
fn list_fails_where_a_row_cannot_be_shown() {
    let mut cli = Cli::new(String::from("."));
    cli.add_todo(1, DAY, &String::from("fine"), None, &1, &false);
    cli.add_todo(2, i64::MAX, &String::from("far away"), None, &2, &false);
    assert_eq!(cli.list_todos(false, Some(200)), None);
    assert_eq!(cli.list_todos(false, Some(40)).unwrap().len(), 3);
}
