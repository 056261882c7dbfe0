//! The collection as a mathematical map from identifier to item, and what each
//! operation of the store makes of it. The contracts of the store are stated
//! over these functions.

use vstd::prelude::*;
use crate::item::{Changes, TodoDataView, TodoView};

verus! {

/// The active collection: the value of each item, by identifier.
pub type Collection = Map<u128, TodoDataView>;

/// How an operation on one item ended.
#[derive(Clone, Copy, Debug, PartialEq, Eq, Structural)]
pub enum Outcome {
    /// The item was changed as asked.
    Applied,
    /// The item was completed before; nothing changed.
    AlreadyCompleted,
    /// The item was deleted before; nothing changed.
    AlreadyDeleted,
    /// The reference names no item of the collection; nothing changed.
    NotFound,
}

/// The collection after a new item was put under `id`.
pub open spec fn after_add(
    m: Collection,
    id: u128,
    title: Seq<char>,
    description: Option<Seq<char>>,
    priority: u8,
    in_progress: bool,
    now: i64,
) -> Collection {
    m.insert(id, TodoDataView::created(title, description, priority, in_progress, now))
}

/// The collection and the outcome after a request to start the item `id`.
pub open spec fn after_start(m: Collection, id: u128, now: i64) -> (Collection, Outcome) {
    if m.contains_key(id) {
        (m.insert(id, m[id].started(now)), Outcome::Applied)
    } else {
        (m, Outcome::NotFound)
    }
}

/// The collection and the outcome after a request to complete the item `id`.
pub open spec fn after_complete(m: Collection, id: u128, now: i64) -> (Collection, Outcome) {
    if !m.contains_key(id) {
        (m, Outcome::NotFound)
    } else if m[id].completed_at is Some {
        (m, Outcome::AlreadyCompleted)
    } else {
        (m.insert(id, m[id].marked_completed(now)), Outcome::Applied)
    }
}

/// The collection and the outcome after a request to delete the item `id`.
pub open spec fn after_delete(m: Collection, id: u128, now: i64) -> (Collection, Outcome) {
    if !m.contains_key(id) {
        (m, Outcome::NotFound)
    } else if m[id].deleted_at is Some {
        (m, Outcome::AlreadyDeleted)
    } else {
        (m.insert(id, m[id].marked_deleted(now)), Outcome::Applied)
    }
}

/// The collection and the outcome after an update request for the item `id`.
pub open spec fn after_update(m: Collection, id: u128, changes: Changes, now: i64) -> (
    Collection,
    Outcome,
) {
    if m.contains_key(id) {
        (m.insert(id, m[id].updated(changes, now)), Outcome::Applied)
    } else {
        (m, Outcome::NotFound)
    }
}

/// The identifiers of the items that archival takes out of the collection.
pub open spec fn archivable_ids(m: Collection) -> Set<u128> {
    Set::new(|k: u128| m.contains_key(k) && m[k].archivable())
}

/// The items that archival leaves in the collection.
pub open spec fn active_part(m: Collection) -> Collection {
    m.remove_keys(archivable_ids(m))
}

/// The items that archival takes out of the collection.
pub open spec fn archived_part(m: Collection) -> Collection {
    m.restrict(archivable_ids(m))
}

/// The collection after the records of a file were read into it, one after
/// the other: a later record replaces an earlier one with the same identifier.
pub open spec fn after_load(m: Collection, records: Seq<TodoView>) -> Collection
    decreases records.len(),
{
    if records.len() == 0 {
        m
    } else {
        after_load(m, records.drop_last()).insert(records.last().id, records.last().data)
    }
}

/// The name of the file that holds the active collection.
pub open spec fn store_file_name(directory: Seq<char>) -> Seq<char> {
    directory + "/todos.json"@
}

/// The name of the archive file of one day. `date` is the day's stamp.
pub open spec fn archive_file_name(directory: Seq<char>, date: Seq<char>) -> Seq<char> {
    directory + "/completed_"@ + date + ".json"@
}

} // verus!
