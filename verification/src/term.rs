//! The lines that show the store on a terminal. A narrow terminal gets three
//! short columns, a wide one six. Every function here returns the text of a
//! line; writing it out is the caller's part.
//!
//! Widths and cuts count characters.

use vstd::prelude::*;
use crate::clock::{format_date, utc_date_text};
use crate::ident::{format_uuid, uuid_text};
use crate::item::{Todo, TodoStatus, TodoView};

verus! {

/// The widest terminal, in columns, that still gets the short lines.
pub const SMALL_TERM: u16 = 80;

/// The two shapes of a line.
#[derive(Clone, Copy, Debug, PartialEq, Eq, Structural)]
pub enum Layout {
    Small,
    Large,
}

/// The layout for a terminal of `columns` columns, or of unknown width.
pub open spec fn layout_of(columns: Option<u16>) -> Layout {
    match columns {
        Some(w) => if w > SMALL_TERM {
            Layout::Large
        } else {
            Layout::Small
        },
        None => Layout::Small,
    }
}

/// `n` spaces.
pub open spec fn spaces(n: nat) -> Seq<char> {
    Seq::new(n, |i: int| ' ')
}

/// `text` in the middle of a field of `width` characters. A text that fills
/// the field is left as it is. Where the padding is odd, the extra space
/// stands on the right.
pub open spec fn centered(text: Seq<char>, width: nat) -> Seq<char> {
    if text.len() >= width {
        text
    } else {
        let pad = (width - text.len()) as nat;
        spaces(pad / 2) + text + spaces((pad - pad / 2) as nat)
    }
}

/// `text` if it has at most `max` characters; else its first `max - 3`
/// characters and an ellipsis of three dots.
pub open spec fn clipped(text: Seq<char>, max: nat) -> Seq<char> {
    if text.len() > max {
        let keep = if max >= 3 {
            max - 3
        } else {
            0
        };
        text.take(keep) + seq!['.', '.', '.']
    } else {
        text
    }
}

/// `text` cut to its first `max` characters.
pub open spec fn shortened(text: Seq<char>, max: nat) -> Seq<char> {
    if text.len() > max {
        text.take(max as int)
    } else {
        text
    }
}

/// The character of a decimal digit.
pub open spec fn digit_char(d: nat) -> char {
    seq!['0', '1', '2', '3', '4', '5', '6', '7', '8', '9'][d as int]
}

/// The decimal numeral of `n`, without leading zeros.
pub open spec fn decimal_text(n: nat) -> Seq<char>
    decreases n,
{
    if n < 10 {
        seq![digit_char(n)]
    } else {
        decimal_text(n / 10).push(digit_char(n % 10))
    }
}

/// The separator between two columns.
pub open spec fn bar() -> Seq<char> {
    seq![' ', '|', ' ']
}

/// The letter that shows a status in a short line.
pub open spec fn status_initial(status: TodoStatus) -> Seq<char> {
    match status {
        TodoStatus::Pending => seq!['P'],
        TodoStatus::InProgress => seq!['I'],
        TodoStatus::Completed => seq!['C'],
        TodoStatus::Deleted => seq!['D'],
    }
}

/// The name that shows a status in a long line.
pub open spec fn status_name(status: TodoStatus) -> Seq<char> {
    match status {
        TodoStatus::Pending => "Pending"@,
        TodoStatus::InProgress => "InProgress"@,
        TodoStatus::Completed => "Completed"@,
        TodoStatus::Deleted => "Deleted"@,
    }
}

/// The head line of a short listing.
pub open spec fn splash_small_text() -> Seq<char> {
    centered("ID"@, 8) + bar() + centered("TITLE"@, 10) + bar() + "STATUS"@
}

/// The head line of a long listing.
pub open spec fn splash_large_text() -> Seq<char> {
    centered("ID"@, 36) + bar() + centered("TITLE"@, 30) + bar() + centered("DESCRIPTION"@, 20)
        + bar() + centered("PRIORITY"@, 2) + bar() + centered("STATUS"@, 10) + bar()
        + "CREATED"@
}

/// The head line of a listing in the given layout.
pub open spec fn splash_text(layout: Layout) -> Seq<char> {
    match layout {
        Layout::Small => splash_small_text(),
        Layout::Large => splash_large_text(),
    }
}

/// The short line of an item whose first column reads `id_text`.
pub open spec fn small_row_text(id_text: Seq<char>, t: TodoView) -> Seq<char> {
    centered(id_text, 8) + bar() + centered(clipped(t.data.title, 10), 10) + bar()
        + status_initial(t.data.status)
}

/// The long line of an item whose first column reads `id_text` and whose last
/// column reads `date`.
pub open spec fn large_row_text(id_text: Seq<char>, t: TodoView, date: Seq<char>) -> Seq<char> {
    let description = match t.data.description {
        Some(d) => d,
        None => Seq::<char>::empty(),
    };
    centered(id_text, 36) + bar() + centered(clipped(t.data.title, 30), 30) + bar() + centered(
        clipped(description, 20),
        20,
    ) + bar() + centered(decimal_text(t.data.priority as nat), 2) + bar() + centered(
        status_name(t.data.status),
        10,
    ) + bar() + date
}

/// The first column of a short line: the first eight characters of the
/// identifier's text, or the position.
pub open spec fn small_id_text(verbose: bool, t: TodoView, position: nat) -> Seq<char> {
    if verbose {
        shortened(uuid_text(t.id), 8)
    } else {
        decimal_text(position)
    }
}

/// The first column of a long line: the identifier's text, or the position.
pub open spec fn large_id_text(verbose: bool, t: TodoView, position: nat) -> Seq<char> {
    if verbose {
        uuid_text(t.id)
    } else {
        decimal_text(position)
    }
}

/// The line of the item at `position` in the given layout. A long line shows
/// the day of creation, so there is none for an item whose creation time is
/// outside the calendar.
pub open spec fn row_text(layout: Layout, verbose: bool, t: TodoView, position: nat) -> Option<
    Seq<char>,
> {
    match layout {
        Layout::Small => Some(small_row_text(small_id_text(verbose, t, position), t)),
        Layout::Large => match utc_date_text(t.data.created_at) {
            Some(date) => Some(large_row_text(large_id_text(verbose, t, position), t, date)),
            None => None,
        },
    }
}

/// Calls `terminal_size::terminal_size` and gives the width that it reports,
/// dropping the height. Nothing is claimed of the result: it is what the
/// terminal of the process says, and `None` where there is no terminal.
#[verifier::external_body]
pub(crate) fn terminal_columns() -> (columns: Option<u16>) {
    match terminal_size::terminal_size() {
        Some((terminal_size::Width(w), _)) => Some(w),
        None => None,
    }
}

/// The layout for a terminal of `columns` columns: the long lines above
/// eighty columns, the short ones else and where the width is unknown.
pub fn layout_for(columns: Option<u16>) -> (layout: Layout)
    ensures
        layout == layout_of(columns),
{
    match columns {
        Some(w) => {
            if w > SMALL_TERM {
                Layout::Large
            } else {
                Layout::Small
            }
        },
        None => Layout::Small,
    }
}

/// Appends `n` spaces to `out`.
pub fn push_spaces(out: &mut String, n: usize)
    ensures
        final(out)@ == old(out)@ + spaces(n as nat),
{
    let mut i: usize = 0;
    assert(out@ =~= old(out)@ + spaces(0));
    while i < n
        invariant
            i <= n,
            out@ == old(out)@ + spaces(i as nat),
        decreases n - i,
    {
        proof {
            reveal_strlit(" ");
        }
        let ghost before = out@;
        out.append(" ");
        i += 1;
        assert(out@ =~= old(out)@ + spaces(i as nat)) by {
            assert(" "@ =~= seq![' ']);
            assert(out@ == before + " "@);
        }
    }
}

/// Puts `text` in the middle of a field of `width` characters.
pub fn center(text: &str, width: usize) -> (out: String)
    ensures
        out@ == centered(text@, width as nat),
{
    let n = text.unicode_len();
    if n >= width {
        String::from_str(text)
    } else {
        let pad = width - n;
        let left = pad / 2;
        let mut out = String::new();
        push_spaces(&mut out, left);
        out.append(text);
        push_spaces(&mut out, pad - left);
        assert(out@ =~= centered(text@, width as nat));
        out
    }
}

/// Cuts a text that is longer than `max` characters to `max - 3` characters
/// and three dots.
pub fn clip(text: &str, max: usize) -> (out: String)
    ensures
        out@ == clipped(text@, max as nat),
{
    let n = text.unicode_len();
    if n > max {
        let keep = if max >= 3 {
            max - 3
        } else {
            0
        };
        let mut out = String::from_str(text.substring_char(0, keep));
        proof {
            reveal_strlit("...");
        }
        out.append("...");
        assert(out@ =~= clipped(text@, max as nat)) by {
            assert("..."@ =~= seq!['.', '.', '.']);
            assert(text@.subrange(0, keep as int) =~= text@.take(keep as int));
        }
        out
    } else {
        String::from_str(text)
    }
}

/// Cuts a text to its first `max` characters.
pub fn shorten(text: &str, max: usize) -> (out: String)
    ensures
        out@ == shortened(text@, max as nat),
{
    let n = text.unicode_len();
    if n > max {
        let out = String::from_str(text.substring_char(0, max));
        assert(text@.subrange(0, max as int) =~= text@.take(max as int));
        out
    } else {
        String::from_str(text)
    }
}

/// The text of a decimal digit.
fn digit_str(d: usize) -> (s: &'static str)
    requires
        d < 10,
    ensures
        s@ == seq![digit_char(d as nat)],
{
    proof {
        reveal_strlit("0");
        reveal_strlit("1");
        reveal_strlit("2");
        reveal_strlit("3");
        reveal_strlit("4");
        reveal_strlit("5");
        reveal_strlit("6");
        reveal_strlit("7");
        reveal_strlit("8");
        reveal_strlit("9");
    }
    let s = if d == 0 {
        "0"
    } else if d == 1 {
        "1"
    } else if d == 2 {
        "2"
    } else if d == 3 {
        "3"
    } else if d == 4 {
        "4"
    } else if d == 5 {
        "5"
    } else if d == 6 {
        "6"
    } else if d == 7 {
        "7"
    } else if d == 8 {
        "8"
    } else {
        "9"
    };
    assert(s@ =~= seq![digit_char(d as nat)]);
    s
}

/// Writes `n` in decimal digits, without leading zeros.
pub fn decimal(n: usize) -> (out: String)
    ensures
        out@ == decimal_text(n as nat),
    decreases n,
{
    if n < 10 {
        String::from_str(digit_str(n))
    } else {
        let mut out = decimal(n / 10);
        out.append(digit_str(n % 10));
        assert(out@ =~= decimal_text(n as nat));
        out
    }
}

/// The letter that shows a status in a short line.
pub fn initial_of(status: TodoStatus) -> (s: &'static str)
    ensures
        s@ == status_initial(status),
{
    proof {
        reveal_strlit("P");
        reveal_strlit("I");
        reveal_strlit("C");
        reveal_strlit("D");
    }
    let s = match status {
        TodoStatus::Pending => "P",
        TodoStatus::InProgress => "I",
        TodoStatus::Completed => "C",
        TodoStatus::Deleted => "D",
    };
    assert(s@ =~= status_initial(status));
    s
}

/// The name that shows a status in a long line.
pub fn name_of(status: TodoStatus) -> (s: &'static str)
    ensures
        s@ == status_name(status),
{
    match status {
        TodoStatus::Pending => "Pending",
        TodoStatus::InProgress => "InProgress",
        TodoStatus::Completed => "Completed",
        TodoStatus::Deleted => "Deleted",
    }
}

/// Appends the separator between two columns.
fn push_bar(out: &mut String)
    ensures
        final(out)@ == old(out)@ + bar(),
{
    proof {
        reveal_strlit(" | ");
    }
    out.append(" | ");
    assert(out@ =~= old(out)@ + bar()) by {
        assert(" | "@ =~= bar());
    }
}

/// Appends `text` in the middle of a field of `width` characters.
fn push_centered(out: &mut String, text: &str, width: usize)
    ensures
        final(out)@ == old(out)@ + centered(text@, width as nat),
{
    let cell = center(text, width);
    out.append(cell.as_str());
}

/// The head line of a short listing.
fn splash_small() -> (line: String)
    ensures
        line@ == splash_small_text(),
{
    let mut line = String::new();
    push_centered(&mut line, "ID", 8);
    push_bar(&mut line);
    push_centered(&mut line, "TITLE", 10);
    push_bar(&mut line);
    line.append("STATUS");
    assert(line@ =~= splash_small_text());
    line
}

/// The head line of a long listing.
fn splash_large() -> (line: String)
    ensures
        line@ == splash_large_text(),
{
    let mut line = String::new();
    push_centered(&mut line, "ID", 36);
    push_bar(&mut line);
    push_centered(&mut line, "TITLE", 30);
    push_bar(&mut line);
    push_centered(&mut line, "DESCRIPTION", 20);
    push_bar(&mut line);
    push_centered(&mut line, "PRIORITY", 2);
    push_bar(&mut line);
    push_centered(&mut line, "STATUS", 10);
    push_bar(&mut line);
    line.append("CREATED");
    assert(line@ =~= splash_large_text());
    line
}

/// The head line of a listing on a terminal of `columns` columns.
pub fn splash_for(columns: Option<u16>) -> (line: String)
    ensures
        line@ == splash_text(layout_of(columns)),
{
    match layout_for(columns) {
        Layout::Large => splash_large(),
        Layout::Small => splash_small(),
    }
}

/// The head line of a listing on the terminal of this process: the long one
/// if the terminal is wider than eighty columns, else the short one.
pub fn splash() -> (line: String)
    ensures
        line@ == splash_text(Layout::Small) || line@ == splash_text(Layout::Large),
{
    let columns = terminal_columns();
    splash_for(columns)
}

/// The short line of an item whose first column reads `id_text`: that text,
/// the title cut to ten characters, and the letter of the status.
pub fn small_row(id_text: &str, todo: &Todo) -> (line: String)
    ensures
        line@ == small_row_text(id_text@, todo@),
{
    let title = clip(todo.data.title.as_str(), 10);
    let mut line = String::new();
    push_centered(&mut line, id_text, 8);
    push_bar(&mut line);
    push_centered(&mut line, title.as_str(), 10);
    push_bar(&mut line);
    line.append(initial_of(todo.data.status));
    assert(line@ =~= small_row_text(id_text@, todo@));
    line
}

/// The long line of an item whose first column reads `id_text` and whose
/// last column reads `date`: between them the title cut to thirty characters,
/// the description cut to twenty, the priority and the name of the status.
pub fn large_row(id_text: &str, todo: &Todo, date: &str) -> (line: String)
    ensures
        line@ == large_row_text(id_text@, todo@, date@),
{
    let title = clip(todo.data.title.as_str(), 30);
    let description = match &todo.data.description {
        Some(d) => clip(d.as_str(), 20),
        None => String::new(),
    };
    let priority = decimal(todo.data.priority as usize);
    let mut line = String::new();
    push_centered(&mut line, id_text, 36);
    push_bar(&mut line);
    push_centered(&mut line, title.as_str(), 30);
    push_bar(&mut line);
    push_centered(&mut line, description.as_str(), 20);
    push_bar(&mut line);
    push_centered(&mut line, priority.as_str(), 2);
    push_bar(&mut line);
    push_centered(&mut line, name_of(todo.data.status), 10);
    push_bar(&mut line);
    line.append(date);
    assert(line@ =~= large_row_text(id_text@, todo@, date@));
    line
}

/// The short line of the item `todo`, which stands at the position `id` of
/// the derived order. The first column shows the start of the identifier if
/// `verbose` is set, else the position.
pub fn print_todo_small(verbose: bool, todo: &Todo, id: usize) -> (line: String)
    ensures
        Some(line@) == row_text(Layout::Small, verbose, todo@, id as nat),
{
    let id_text = if verbose {
        let full = format_uuid(todo.id);
        shorten(full.as_str(), 8)
    } else {
        decimal(id)
    };
    small_row(id_text.as_str(), todo)
}

/// The long line of the item `todo`, which stands at the position `id` of the
/// derived order. The first column shows the identifier if `verbose` is set,
/// else the position. There is no line for an item whose creation time is
/// outside the calendar.
pub fn print_todo_large(verbose: bool, todo: &Todo, id: usize) -> (line: Option<String>)
    ensures
        text_of_line(line) == row_text(Layout::Large, verbose, todo@, id as nat),
{
    match format_date(todo.data.created_at) {
        Some(date) => {
            let id_text = if verbose {
                format_uuid(todo.id)
            } else {
                decimal(id)
            };
            Some(large_row(id_text.as_str(), todo, date.as_str()))
        },
        None => None,
    }
}

/// The text of an optional line.
pub open spec fn text_of_line(line: Option<String>) -> Option<Seq<char>> {
    match line {
        Some(l) => Some(l@),
        None => None,
    }
}

/// The line of the item `todo` at the position `id` on a terminal of
/// `columns` columns.
pub fn print_todo_for(columns: Option<u16>, verbose: bool, todo: &Todo, id: usize) -> (line:
    Option<String>)
    ensures
        text_of_line(line) == row_text(layout_of(columns), verbose, todo@, id as nat),
{
    match layout_for(columns) {
        Layout::Large => print_todo_large(verbose, todo, id),
        Layout::Small => Some(print_todo_small(verbose, todo, id)),
    }
}

/// The line of the item `todo` at the position `id` on the terminal of this
/// process.
pub fn print_todo(verbose: bool, todo: &Todo, id: usize) -> (line: Option<String>)
    ensures
        text_of_line(line) == row_text(Layout::Small, verbose, todo@, id as nat) || text_of_line(
            line,
        ) == row_text(Layout::Large, verbose, todo@, id as nat),
{
    let columns = terminal_columns();
    print_todo_for(columns, verbose, todo, id)
}

} // verus!
