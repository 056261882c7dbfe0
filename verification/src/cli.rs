//! The store: the collection of active items, keyed by identifier, and the
//! operations on it. The map carries no order of its own; the order in which
//! items are shown and counted is derived from it on each call.

use vstd::prelude::*;
use std::collections::HashMap;
use vstd::std_specs::hash::spec_keys_iter;
use vstd::std_specs::iter::IteratorSpec;
pub use crate::item::{Todo, TodoData, TodoStatus};
pub use crate::model::Outcome;
use crate::item::{TodoDataView, TodoView, changes_of, text_of_ref, views};
use crate::order::{
    derive_order, insert_sorted, is_derived_order, lemma_derive_order_is, lemma_lists_insert,
    lemma_lists_len, lists, sorted,
};
use crate::model::{
    Collection, active_part, after_add, after_complete, after_delete, after_load,
    after_start, after_update, archivable_ids, archive_file_name, archived_part,
    store_file_name,
};
use crate::term::{Layout, layout_of, print_todo_for, row_text, splash_for, splash_text};
use crate::reference::{
    InvalidReference, parse_identifier, parse_index, reference_target, resolve_reference,
};

verus! {

broadcast use vstd::std_specs::hash::group_hash_axioms;

/// What archival asks of the caller.
#[derive(Debug, PartialEq, Eq)]
pub enum SyncOutcome {
    /// No item was completed or deleted: no file is to be touched.
    NothingToArchive,
    /// The items in `batch` left the collection. They are to be appended to
    /// the list in the file `file_name`, and the collection is to be saved.
    Archive { file_name: String, batch: Vec<Todo> },
}

/// Whether `outcome` is what archival on the day `today` asks for, given the
/// collection `before` it and the directory of the store.
pub open spec fn archival_of(
    before: Collection,
    directory: Seq<char>,
    today: Seq<char>,
    outcome: SyncOutcome,
) -> bool {
    match outcome {
        SyncOutcome::NothingToArchive => archivable_ids(before).is_empty(),
        SyncOutcome::Archive { file_name, batch } => {
            &&& !archivable_ids(before).is_empty()
            &&& lists(archived_part(before), views(batch@))
            &&& file_name@ == archive_file_name(directory, today)
        },
    }
}

/// The texts of the lines of a listing.
pub open spec fn lines_text(lines: Option<Vec<String>>) -> Option<Seq<Seq<char>>> {
    match lines {
        Some(v) => Some(v@.map_values(|s: String| s@)),
        None => None,
    }
}

/// The lines that show the items of `order`: the head line, then one line for
/// each item. There is no listing if one of the items has no line.
pub open spec fn listing_text(order: Seq<TodoView>, verbose: bool, layout: Layout) -> Option<
    Seq<Seq<char>>,
> {
    if forall|i: int|
        0 <= i < order.len() ==> (#[trigger] row_text(layout, verbose, order[i], i as nat)) is Some {
        Some(
            seq![splash_text(layout)] + Seq::new(
                order.len(),
                |i: int| row_text(layout, verbose, order[i], i as nat)->0,
            ),
        )
    } else {
        None
    }
}

/// The store of active items and the directory that its files live in.
pub struct Cli {
    file_path: String,
    todo_map: HashMap<u128, TodoData>,
}

impl View for Cli {
    type V = Collection;

    /// The collection: the value of each item, by identifier.
    closed spec fn view(&self) -> Collection {
        self.todo_map@.map_values(|d: TodoData| d@)
    }
}

impl Default for Cli {
    /// An empty store in the current directory.
    fn default() -> (cli: Self)
        ensures
            cli@ == Collection::empty(),
            cli.directory() == seq!['.'],
    {
        let file_path = String::from_str(".");
        proof {
            reveal_strlit(".");
            assert(file_path@ =~= seq!['.']);
        }
        let cli = Cli { file_path, todo_map: HashMap::new() };
        assert(cli@ =~= Collection::empty());
        cli
    }
}

impl Cli {
    /// The directory that holds the store's files.
    pub closed spec fn directory(&self) -> Seq<char> {
        self.file_path@
    }

    /// An empty store whose files live in the directory `file_path`.
    pub fn new(file_path: String) -> (cli: Self)
        ensures
            cli@ == Collection::empty(),
            cli.directory() == file_path@,
    {
        let cli = Cli { file_path, todo_map: HashMap::new() };
        assert(cli@ =~= Collection::empty());
        cli
    }

    /// The directory that holds the store's files.
    pub fn file_path(&self) -> (path: &String)
        ensures
            path@ == self.directory(),
    {
        &self.file_path
    }

    /// The number of active items.
    pub fn len(&self) -> (n: usize)
        ensures
            self@.dom().finite(),
            n == self@.dom().len(),
    {
        assert(self@.dom() =~= self.todo_map@.dom());
        self.todo_map.len()
    }

    /// A copy of the item with the identifier `id`, if the collection has one.
    pub fn get(&self, id: u128) -> (found: Option<TodoData>)
        ensures
            match found {
                Some(data) => self@.contains_key(id) && data@ == self@[id],
                None => !self@.contains_key(id),
            },
    {
        match self.todo_map.get(&id) {
            Some(data) => Some(data.clone()),
            None => None,
        }
    }

    /// Puts a new item under the identifier `id`: created at `now`, pending, or
    /// in progress from the start if `in_progress` is set. An item that was
    /// held under `id` is replaced.
    pub fn add_todo(
        &mut self,
        id: u128,
        now: i64,
        title: &String,
        description: Option<&String>,
        priority: &u8,
        in_progress: &bool,
    )
        ensures
            final(self)@ == after_add(
                old(self)@,
                id,
                title@,
                text_of_ref(description),
                *priority,
                *in_progress,
                now,
            ),
            final(self).directory() == old(self).directory(),
    {
        let data = TodoData::new(title, description, *priority, *in_progress, now);
        self.todo_map.insert(id, data);
        assert(self@ =~= old(self)@.insert(id, data@));
    }

    /// Starts work on the item `id` at `now`.
    pub fn start(&mut self, id: u128, now: i64) -> (outcome: Outcome)
        ensures
            (final(self)@, outcome) == after_start(old(self)@, id, now),
            final(self).directory() == old(self).directory(),
    {
        match self.todo_map.remove(&id) {
            Some(mut data) => {
                data.start(now);
                self.todo_map.insert(id, data);
                assert(self@ =~= old(self)@.insert(id, old(self)@[id].started(now)));
                Outcome::Applied
            },
            None => {
                assert(self@ =~= old(self)@);
                Outcome::NotFound
            },
        }
    }

    /// Completes the item `id` at `now`, unless it was completed before.
    pub fn complete(&mut self, id: u128, now: i64) -> (outcome: Outcome)
        ensures
            (final(self)@, outcome) == after_complete(old(self)@, id, now),
            final(self).directory() == old(self).directory(),
    {
        match self.todo_map.remove(&id) {
            Some(mut data) => {
                let changed = data.complete(now);
                self.todo_map.insert(id, data);
                assert(self@ =~= old(self)@.insert(id, old(self)@[id].completed(now)));
                if changed {
                    Outcome::Applied
                } else {
                    assert(self@ =~= old(self)@);
                    Outcome::AlreadyCompleted
                }
            },
            None => {
                assert(self@ =~= old(self)@);
                Outcome::NotFound
            },
        }
    }

    /// Deletes the item `id` at `now`, unless it was deleted before. The item
    /// stays in the collection until it is archived.
    pub fn delete(&mut self, id: u128, now: i64) -> (outcome: Outcome)
        ensures
            (final(self)@, outcome) == after_delete(old(self)@, id, now),
            final(self).directory() == old(self).directory(),
    {
        match self.todo_map.remove(&id) {
            Some(mut data) => {
                let changed = data.delete(now);
                self.todo_map.insert(id, data);
                assert(self@ =~= old(self)@.insert(id, old(self)@[id].deleted(now)));
                if changed {
                    Outcome::Applied
                } else {
                    assert(self@ =~= old(self)@);
                    Outcome::AlreadyDeleted
                }
            },
            None => {
                assert(self@ =~= old(self)@);
                Outcome::NotFound
            },
        }
    }

    /// Applies an update request to the item `id` at `now`: the fields that are
    /// present, then the raised flags in the order in-progress, completed,
    /// deleted.
    pub fn update(
        &mut self,
        id: u128,
        title: Option<&String>,
        description: Option<&String>,
        priority: Option<&u8>,
        in_progress: Option<&bool>,
        completed: Option<&bool>,
        deleted: Option<&bool>,
        now: i64,
    ) -> (outcome: Outcome)
        ensures
            (final(self)@, outcome) == after_update(
                old(self)@,
                id,
                changes_of(title, description, priority, in_progress, completed, deleted),
                now,
            ),
            final(self).directory() == old(self).directory(),
    {
        match self.todo_map.remove(&id) {
            Some(mut data) => {
                data.update(title, description, priority, in_progress, completed, deleted, now);
                self.todo_map.insert(id, data);
                assert(self@ =~= old(self)@.insert(
                    id,
                    old(self)@[id].updated(
                        changes_of(title, description, priority, in_progress, completed, deleted),
                        now,
                    ),
                ));
                Outcome::Applied
            },
            None => {
                assert(self@ =~= old(self)@);
                Outcome::NotFound
            },
        }
    }

    /// The collection in derived order: by priority, then by creation time,
    /// then by identifier. The order is computed anew on each call, so a
    /// position in it holds only until the collection changes.
    pub fn ordered_todos(&self) -> (todos: Vec<Todo>)
        ensures
            views(todos@) == derive_order(self@),
            is_derived_order(self@, views(todos@)),
            self@.dom().finite(),
            todos@.len() == self@.dom().len(),
    {
        let mut todos: Vec<Todo> = Vec::new();
        let ghost all: Seq<u128> = spec_keys_iter(&self.todo_map).remaining().unref();
        let ghost done: Map<u128, TodoDataView> = Map::empty();
        assert(self@.dom() =~= self.todo_map@.dom());
        for key in it: self.todo_map.keys()
            invariant
                it.seq().unref() == all,
                all.no_duplicates(),
                all.to_set() == self@.dom(),
                self@.dom() == self.todo_map@.dom(),
                sorted(views(todos@)),
                lists(done, views(todos@)),
                done.dom() == all.take(it.index() as int).to_set(),
                forall|k: u128| #[trigger] done.contains_key(k) ==> done[k] == self@[k],
        {
            let ghost i = it.index() as int;
            let id: u128 = *key;
            assert(id == all[i]);
            assert(all.to_set().contains(id));
            assert(!done.contains_key(id)) by {
                if done.contains_key(id) {
                    let j = choose|j: int| 0 <= j < i && all.take(i)[j] == id;
                    assert(all[j] == all[i]);
                }
            }
            match self.todo_map.get(&id) {
                Some(data) => {
                    let todo = Todo { id, data: data.clone() };
                    assert(todo@.data == self@[id]);
                    assert forall|j: int| 0 <= j < todos@.len() implies (#[trigger] todos@[j]).id
                        != id by {
                        assert(done.contains_key(views(todos@)[j].id));
                    }
                    let ghost before = views(todos@);
                    let at = insert_sorted(&mut todos, todo);
                    proof {
                        lemma_lists_insert(done, before, at as int, todo@);
                        done = done.insert(id, todo@.data);
                        assert(all.take(i + 1) =~= all.take(i).push(id));
                        all.take(i).lemma_push_to_set_commute(id);
                    }
                },
                None => {
                    assert(false);
                },
            }
        }
        proof {
            assert(all.take(all.len() as int) =~= all);
            assert(done =~= self@);
            lemma_derive_order_is(self@, views(todos@));
        }
        todos
    }

    /// The lines that show the collection on a terminal of `columns` columns:
    /// the head line, then the items in derived order, each with its position.
    /// With `verbose` the first column shows identifiers in place of positions.
    /// There is no listing if the long lines are due and an item was created
    /// outside the calendar.
    pub fn list_todos(&self, verbose: bool, columns: Option<u16>) -> (lines: Option<Vec<String>>)
        ensures
            lines_text(lines) == listing_text(derive_order(self@), verbose, layout_of(columns)),
    {
        let todos = self.ordered_todos();
        let ghost order = views(todos@);
        let ghost layout = layout_of(columns);
        let mut lines: Vec<String> = Vec::new();
        lines.push(splash_for(columns));
        let mut i: usize = 0;
        while i < todos.len()
            invariant
                i <= todos@.len(),
                order == views(todos@),
                order == derive_order(self@),
                layout == layout_of(columns),
                lines@.len() == i + 1,
                lines@[0]@ == splash_text(layout),
                forall|j: int|
                    0 <= j < i ==> #[trigger] row_text(layout, verbose, order[j], j as nat) == Some(
                        lines@[j + 1]@,
                    ),
            decreases todos@.len() - i,
        {
            match print_todo_for(columns, verbose, &todos[i], i) {
                Some(line) => {
                    lines.push(line);
                },
                None => {
                    proof {
                        let k: int = i as int;
                        assert(row_text(layout, verbose, order[k], k as nat) is None);
                    }
                    return None;
                },
            }
            i += 1;
        }
        proof {
            let shown = lines@.map_values(|s: String| s@);
            let expected = listing_text(order, verbose, layout);
            assert(expected is Some);
            assert(shown =~= expected->0);
        }
        Some(lines)
    }

    /// Resolves a reference. A text that spells a position below the number of
    /// active items names the item at that position of the derived order. Any
    /// other text is read as a full identifier, and is invalid if it is none.
    pub fn parse_todo_id(&self, id: &str) -> (r: Result<u128, InvalidReference>)
        ensures
            r == match reference_target(self@, id@) {
                Some(target) => Ok::<u128, InvalidReference>(target),
                None => Err::<u128, InvalidReference>(InvalidReference),
            },
    {
        let todos = self.ordered_todos();
        let position = parse_index(id);
        let in_order = resolve_reference(&todos, position, None);
        match in_order {
            Some(target) => Ok(target),
            None => match parse_identifier(id) {
                Some(target) => Ok(target),
                None => Err(InvalidReference),
            },
        }
    }

    /// Starts work on the item that `id` refers to.
    pub fn start_todo(&mut self, id: &str, now: i64) -> (outcome: Outcome)
        ensures
            (final(self)@, outcome) == match reference_target(old(self)@, id@) {
                Some(target) => after_start(old(self)@, target, now),
                None => (old(self)@, Outcome::NotFound),
            },
            final(self).directory() == old(self).directory(),
    {
        match self.parse_todo_id(id) {
            Ok(target) => self.start(target, now),
            Err(_) => Outcome::NotFound,
        }
    }

    /// Completes the item that `id` refers to, unless it was completed before.
    pub fn complete_todo(&mut self, id: &str, now: i64) -> (outcome: Outcome)
        ensures
            (final(self)@, outcome) == match reference_target(old(self)@, id@) {
                Some(target) => after_complete(old(self)@, target, now),
                None => (old(self)@, Outcome::NotFound),
            },
            final(self).directory() == old(self).directory(),
    {
        match self.parse_todo_id(id) {
            Ok(target) => self.complete(target, now),
            Err(_) => Outcome::NotFound,
        }
    }

    /// Deletes the item that `id` refers to, unless it was deleted before.
    pub fn delete_todo(&mut self, id: &str, now: i64) -> (outcome: Outcome)
        ensures
            (final(self)@, outcome) == match reference_target(old(self)@, id@) {
                Some(target) => after_delete(old(self)@, target, now),
                None => (old(self)@, Outcome::NotFound),
            },
            final(self).directory() == old(self).directory(),
    {
        match self.parse_todo_id(id) {
            Ok(target) => self.delete(target, now),
            Err(_) => Outcome::NotFound,
        }
    }

    /// Applies an update request to the item that `id` refers to.
    pub fn update_todo(
        &mut self,
        id: &str,
        title: Option<&String>,
        description: Option<&String>,
        priority: Option<&u8>,
        in_progress: Option<&bool>,
        completed: Option<&bool>,
        deleted: Option<&bool>,
        now: i64,
    ) -> (outcome: Outcome)
        ensures
            (final(self)@, outcome) == match reference_target(old(self)@, id@) {
                Some(target) => after_update(
                    old(self)@,
                    target,
                    changes_of(title, description, priority, in_progress, completed, deleted),
                    now,
                ),
                None => (old(self)@, Outcome::NotFound),
            },
            final(self).directory() == old(self).directory(),
    {
        match self.parse_todo_id(id) {
            Ok(target) => self.update(
                target,
                title,
                description,
                priority,
                in_progress,
                completed,
                deleted,
                now,
            ),
            Err(_) => Outcome::NotFound,
        }
    }

    /// The records to write to the store's file: every item of the collection
    /// once, in no particular order.
    pub fn save_todos(&self) -> (records: Vec<Todo>)
        ensures
            lists(self@, views(records@)),
            self@.dom().finite(),
            records@.len() == self@.dom().len(),
    {
        let mut records: Vec<Todo> = Vec::new();
        let ghost all: Seq<u128> = spec_keys_iter(&self.todo_map).remaining().unref();
        let ghost done: Collection = Map::empty();
        assert(self@.dom() =~= self.todo_map@.dom());
        for key in it: self.todo_map.keys()
            invariant
                it.seq().unref() == all,
                all.no_duplicates(),
                all.to_set() == self@.dom(),
                self@.dom() == self.todo_map@.dom(),
                lists(done, views(records@)),
                done.dom() == all.take(it.index() as int).to_set(),
                forall|k: u128| #[trigger] done.contains_key(k) ==> done[k] == self@[k],
        {
            let ghost i = it.index() as int;
            let id: u128 = *key;
            assert(id == all[i]);
            assert(all.to_set().contains(id));
            assert(!done.contains_key(id)) by {
                if done.contains_key(id) {
                    let j = choose|j: int| 0 <= j < i && all.take(i)[j] == id;
                    assert(all[j] == all[i]);
                }
            }
            match self.todo_map.get(&id) {
                Some(data) => {
                    let todo = Todo { id, data: data.clone() };
                    let ghost before = views(records@);
                    records.push(todo);
                    proof {
                        lemma_lists_insert(done, before, before.len() as int, todo@);
                        assert(views(records@) =~= before.insert(before.len() as int, todo@));
                        done = done.insert(id, todo@.data);
                        assert(all.take(i + 1) =~= all.take(i).push(id));
                        all.take(i).lemma_push_to_set_commute(id);
                    }
                },
                None => {
                    assert(false);
                },
            }
        }
        proof {
            assert(all.take(all.len() as int) =~= all);
            assert(done =~= self@);
            lemma_lists_len(self@, views(records@));
        }
        records
    }

    /// Reads the records of the store's file into the collection, one after the
    /// other. A later record replaces an earlier one with the same identifier.
    pub fn load_todos(&mut self, todos: Vec<Todo>)
        ensures
            final(self)@ == after_load(old(self)@, views(todos@)),
            final(self).directory() == old(self).directory(),
    {
        let ghost given = todos@;
        let ghost start = self@;
        assert(views(given.take(0)) =~= Seq::<TodoView>::empty());
        for todo in it: todos
            invariant
                it.seq() == given,
                self@ == after_load(start, views(given.take(it.index() as int))),
                self.file_path == old(self).file_path,
        {
            let ghost i = it.index() as int;
            let ghost before = views(given.take(i));
            let ghost after = views(given.take(i + 1));
            assert(after.drop_last() =~= before);
            assert(after.last() == todo@);
            let ghost earlier = self@;
            let Todo { id, data } = todo;
            self.todo_map.insert(id, data);
            assert(self@ =~= earlier.insert(id, data@));
        }
        assert(given.take(given.len() as int) =~= given);
    }

    /// The name of the file that holds the active collection.
    pub fn store_file(&self) -> (name: String)
        ensures
            name@ == store_file_name(self.directory()),
    {
        let mut name = self.file_path.clone();
        name.append("/todos.json");
        name
    }

    /// The name of the archive file of the day with the stamp `today`.
    pub fn archive_file(&self, today: &str) -> (name: String)
        ensures
            name@ == archive_file_name(self.directory(), today@),
    {
        let mut name = self.file_path.clone();
        name.append("/completed_");
        name.append(today);
        name.append(".json");
        name
    }

    /// Takes every item out of the collection whose `completed_at` or
    /// `deleted_at` is set, and returns those items, each once, in no
    /// particular order. All other items stay as they are.
    pub fn take_archivable(&mut self) -> (batch: Vec<Todo>)
        ensures
            final(self)@ == active_part(old(self)@),
            lists(archived_part(old(self)@), views(batch@)),
            archivable_ids(old(self)@).finite(),
            batch@.len() == archivable_ids(old(self)@).len(),
            final(self).directory() == old(self).directory(),
    {
        let ghost before = self@;
        let mut keys: Vec<u128> = Vec::new();
        let ghost all: Seq<u128> = spec_keys_iter(&self.todo_map).remaining().unref();
        assert(self@.dom() =~= self.todo_map@.dom());
        for key in it: self.todo_map.keys()
            invariant
                it.seq().unref() == all,
                all.no_duplicates(),
                all.to_set() == self@.dom(),
                self@.dom() == self.todo_map@.dom(),
                self@ == before,
                keys@.no_duplicates(),
                forall|j: int|
                    0 <= j < keys@.len() ==> archivable_ids(before).contains(#[trigger] keys@[j])
                        && all.take(it.index() as int).contains(keys@[j]),
                forall|p: int|
                    0 <= p < it.index() && archivable_ids(before).contains(#[trigger] all[p])
                        ==> keys@.contains(all[p]),
        {
            let ghost i = it.index() as int;
            let ghost found = keys@;
            let id: u128 = *key;
            assert(id == all[i]);
            assert(all.to_set().contains(id));
            assert(!found.contains(id)) by {
                if found.contains(id) {
                    let j = choose|j: int| 0 <= j < found.len() && found[j] == id;
                    let p = choose|p: int| 0 <= p < i && all.take(i)[p] == found[j];
                    assert(all[p] == all[i]);
                }
            }
            match self.todo_map.get(&id) {
                Some(data) => {
                    if data.is_archivable() {
                        keys.push(id);
                        assert(keys@[found.len() as int] == id);
                    }
                },
                None => {
                    assert(false);
                },
            }
            proof {
                assert forall|j: int| 0 <= j < keys@.len() implies all.take(i + 1).contains(
                    #[trigger] keys@[j],
                ) by {
                    if j < found.len() {
                        let p = choose|p: int| 0 <= p < i && all.take(i)[p] == found[j];
                        assert(all.take(i + 1)[p] == keys@[j]);
                    } else {
                        assert(all.take(i + 1)[i] == keys@[j]);
                    }
                }
                assert forall|p: int|
                    0 <= p < i + 1 && archivable_ids(before).contains(
                        #[trigger] all[p],
                    ) implies keys@.contains(all[p]) by {
                    if p < i {
                        let j = choose|j: int| 0 <= j < found.len() && found[j] == all[p];
                        assert(keys@[j] == all[p]);
                    }
                }
            }
        }
        assert(keys@.to_set() =~= archivable_ids(before)) by {
            assert(all.take(all.len() as int) =~= all);
            assert forall|k: u128| archivable_ids(before).contains(k) implies keys@.to_set().contains(
                k,
            ) by {
                assert(all.to_set().contains(k));
                let p = choose|p: int| 0 <= p < all.len() && all[p] == k;
                assert(keys@.contains(all[p]));
            }
        }
        let mut batch: Vec<Todo> = Vec::new();
        let mut i: usize = 0;
        assert(keys@.take(0).to_set() =~= Set::<u128>::empty());
        assert(self@ =~= before.remove_keys(Set::<u128>::empty()));
        assert(before.restrict(Set::<u128>::empty()) =~= Collection::empty());
        while i < keys.len()
            invariant
                i <= keys@.len(),
                keys@.no_duplicates(),
                keys@.to_set() == archivable_ids(before),
                self.file_path == old(self).file_path,
                self@ == before.remove_keys(keys@.take(i as int).to_set()),
                lists(before.restrict(keys@.take(i as int).to_set()), views(batch@)),
            decreases keys@.len() - i,
        {
            let id: u128 = keys[i];
            let ghost taken = keys@.take(i as int).to_set();
            let ghost listed = views(batch@);
            assert(keys@.to_set().contains(id));
            assert(!taken.contains(id)) by {
                if taken.contains(id) {
                    let p = choose|p: int| 0 <= p < i && keys@.take(i as int)[p] == id;
                    assert(keys@[p] == keys@[i as int]);
                }
            }
            let ghost held = self@;
            assert(held.contains_key(id) && held[id] == before[id]);
            assert(self.todo_map@.contains_key(id) && self.todo_map@[id]@ == held[id]);
            match self.todo_map.remove(&id) {
                Some(data) => {
                    let todo = Todo { id, data };
                    assert(self@ =~= held.remove(id));
                    assert(todo@.data == before[id]);
                    batch.push(todo);
                    proof {
                        lemma_lists_insert(
                            before.restrict(taken),
                            listed,
                            listed.len() as int,
                            todo@,
                        );
                        assert(views(batch@) =~= listed.insert(listed.len() as int, todo@));
                        assert(keys@.take(i + 1) =~= keys@.take(i as int).push(id));
                        keys@.take(i as int).lemma_push_to_set_commute(id);
                        assert(before.restrict(taken).insert(id, todo@.data) =~= before.restrict(
                            taken.insert(id),
                        ));
                        assert(self@ =~= before.remove_keys(taken.insert(id)));
                    }
                },
                None => {
                    assert(false);
                },
            }
            i += 1;
        }
        proof {
            assert(keys@.take(keys@.len() as int) =~= keys@);
            lemma_lists_len(archived_part(before), views(batch@));
            assert(archived_part(before).dom() =~= archivable_ids(before));
        }
        batch
    }

    /// Runs the archival on the day with the stamp `today`. Every item whose
    /// `completed_at` or `deleted_at` is set leaves the collection. If there is
    /// none, nothing changes and no file is named.
    pub fn sync(&mut self, today: &str) -> (outcome: SyncOutcome)
        ensures
            final(self)@ == active_part(old(self)@),
            final(self).directory() == old(self).directory(),
            archival_of(old(self)@, old(self).directory(), today@, outcome),
            outcome is NothingToArchive ==> final(self)@ == old(self)@,
    {
        let batch = self.take_archivable();
        if batch.is_empty() {
            proof {
                assert(archivable_ids(old(self)@) =~= Set::<u128>::empty()) by {
                    archivable_ids(old(self)@).lemma_len0_is_empty();
                }
                assert(self@ =~= old(self)@);
            }
            SyncOutcome::NothingToArchive
        } else {
            let file_name = self.archive_file(today);
            SyncOutcome::Archive { file_name, batch }
        }
    }
}

/// The archive of a day after the items of `batch` were appended to the items
/// that the day's file held.
pub fn merge_archive(existing: Vec<Todo>, batch: Vec<Todo>) -> (archive: Vec<Todo>)
    ensures
        archive@ == existing@ + batch@,
{
    let mut archive = existing;
    let mut batch = batch;
    archive.append(&mut batch);
    archive
}

} // verus!
