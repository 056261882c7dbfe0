//! What holds of the store whatever its contents: the shape of a new item,
//! the rules of the lifecycle, archival, and the way to a file and back.

use vstd::prelude::*;
use crate::ident::uuid_parse;
use crate::item::{Changes, TodoDataView, TodoStatus, TodoView, raised};
use crate::model::{
    Collection, Outcome, active_part, after_add, after_complete, after_delete, after_load,
    after_start, after_update, archivable_ids, archived_part,
};
use crate::order::{derive_order, lists, precedes};
use crate::reference::{index_in_range, reference_target};

verus! {

/// A new item carries its creation time, and its status is the one that was
/// asked for. It is neither completed nor deleted. It has a start time exactly
/// if it was created in progress, and that time is the creation time.
pub proof fn law_new_item(
    m: Collection,
    id: u128,
    title: Seq<char>,
    description: Option<Seq<char>>,
    priority: u8,
    in_progress: bool,
    now: i64,
)
    ensures
        ({
            let item = after_add(m, id, title, description, priority, in_progress, now)[id];
            &&& after_add(m, id, title, description, priority, in_progress, now).contains_key(id)
            &&& item.created_at == now
            &&& item.status == if in_progress {
                TodoStatus::InProgress
            } else {
                TodoStatus::Pending
            }
            &&& item.in_progress_at == if in_progress {
                Some(now)
            } else {
                None
            }
            &&& item.completed_at is None
            &&& item.deleted_at is None
            &&& item.title == title
            &&& item.description == description
            &&& item.priority == priority
            &&& title.len() > 0 ==> item.well_formed()
        }),
{
}

/// Adding an item leaves every other item of the collection as it was.
pub proof fn law_add_leaves_others(
    m: Collection,
    id: u128,
    title: Seq<char>,
    description: Option<Seq<char>>,
    priority: u8,
    in_progress: bool,
    now: i64,
    other: u128,
)
    requires
        other != id,
    ensures
        ({
            let after = after_add(m, id, title, description, priority, in_progress, now);
            &&& after.contains_key(other) == m.contains_key(other)
            &&& m.contains_key(other) ==> after[other] == m[other]
        }),
{
}

/// Completing is idempotent. The first request that finds the item
/// uncompleted sets `completed_at`; a second request, at whatever time, is
/// told that the item is already completed and changes nothing, so
/// `completed_at` is written once.
pub proof fn law_complete_twice(m: Collection, id: u128, first: i64, second: i64)
    requires
        m.contains_key(id),
    ensures
        ({
            let once = after_complete(m, id, first);
            let twice = after_complete(once.0, id, second);
            &&& twice.0 == once.0
            &&& twice.1 == Outcome::AlreadyCompleted
            &&& m[id].completed_at is None ==> once.1 == Outcome::Applied
                && once.0[id].completed_at == Some(first) && once.0[id].status
                == TodoStatus::Completed
            &&& m[id].completed_at is Some ==> once.1 == Outcome::AlreadyCompleted && once.0 == m
        }),
{
}

/// Deleting is idempotent in the same way as completing.
pub proof fn law_delete_twice(m: Collection, id: u128, first: i64, second: i64)
    requires
        m.contains_key(id),
    ensures
        ({
            let once = after_delete(m, id, first);
            let twice = after_delete(once.0, id, second);
            &&& twice.0 == once.0
            &&& twice.1 == Outcome::AlreadyDeleted
            &&& m[id].deleted_at is None ==> once.1 == Outcome::Applied
                && once.0[id].deleted_at == Some(first) && once.0[id].status
                == TodoStatus::Deleted
            &&& m[id].deleted_at is Some ==> once.1 == Outcome::AlreadyDeleted && once.0 == m
        }),
{
}

/// An operation on an identifier that the collection does not hold reports
/// that nothing was found and changes nothing.
pub proof fn law_missing_item(m: Collection, id: u128, changes: Changes, now: i64)
    requires
        !m.contains_key(id),
    ensures
        after_start(m, id, now) == (m, Outcome::NotFound),
        after_complete(m, id, now) == (m, Outcome::NotFound),
        after_delete(m, id, now) == (m, Outcome::NotFound),
        after_update(m, id, changes, now) == (m, Outcome::NotFound),
{
}

/// Among the flags of one update the last one wins. With both the completed
/// and the deleted flag raised the item ends up deleted, and both
/// `completed_at` and `deleted_at` are set: to the time of the update where
/// they were unset, to their old value else.
pub proof fn law_update_flag_precedence(item: TodoDataView, changes: Changes, now: i64)
    requires
        raised(changes.completed),
        raised(changes.deleted),
    ensures
        ({
            let after = item.updated(changes, now);
            &&& after.status == TodoStatus::Deleted
            &&& after.completed_at == Some(
                if item.completed_at is Some {
                    item.completed_at->0
                } else {
                    now
                },
            )
            &&& after.deleted_at == Some(
                if item.deleted_at is Some {
                    item.deleted_at->0
                } else {
                    now
                },
            )
        }),
{
}

/// The status after an update is that of the last raised flag, and the old
/// status if no flag is raised.
pub proof fn law_update_status(item: TodoDataView, changes: Changes, now: i64)
    ensures
        item.updated(changes, now).status == if raised(changes.deleted) {
            TodoStatus::Deleted
        } else if raised(changes.completed) {
            TodoStatus::Completed
        } else if raised(changes.in_progress) {
            TodoStatus::InProgress
        } else {
            item.status
        },
{
}

/// Whether `after` has the creation time of `before` and every lifecycle
/// timestamp that `before` has set.
pub open spec fn keeps_what_is_set(before: TodoDataView, after: TodoDataView) -> bool {
    &&& after.created_at == before.created_at
    &&& before.in_progress_at is Some ==> after.in_progress_at == before.in_progress_at
    &&& before.completed_at is Some ==> after.completed_at == before.completed_at
    &&& before.deleted_at is Some ==> after.deleted_at == before.deleted_at
}

/// No operation changes the creation time of an item, and none clears or
/// overwrites a lifecycle timestamp that is set.
pub proof fn law_timestamps_are_sticky(item: TodoDataView, changes: Changes, now: i64)
    ensures
        keeps_what_is_set(item, item.started(now)),
        keeps_what_is_set(item, item.completed(now)),
        keeps_what_is_set(item, item.deleted(now)),
        keeps_what_is_set(item, item.marked_completed(now)),
        keeps_what_is_set(item, item.marked_deleted(now)),
        keeps_what_is_set(item, item.updated(changes, now)),
{
}

/// An operation at or after the creation time keeps an item well formed: no
/// lifecycle timestamp comes to stand before the creation.
pub proof fn law_operations_keep_well_formed(item: TodoDataView, changes: Changes, now: i64)
    requires
        item.well_formed(),
        now >= item.created_at,
        changes.title matches Some(t) ==> t.len() > 0,
    ensures
        item.started(now).well_formed(),
        item.completed(now).well_formed(),
        item.deleted(now).well_formed(),
        item.updated(changes, now).well_formed(),
{
}

/// The status follows the most recent request, also where the timestamp of
/// that status was set by an earlier one.
pub proof fn law_status_follows_request(item: TodoDataView, now: i64)
    ensures
        item.started(now).status == TodoStatus::InProgress,
        item.marked_completed(now).status == TodoStatus::Completed,
        item.marked_deleted(now).status == TodoStatus::Deleted,
{
}

/// Archival splits the collection in two. What it takes out is exactly the
/// items whose `completed_at` or `deleted_at` is set, and every other item
/// stays as it was.
pub proof fn law_archival_splits(m: Collection, id: u128)
    requires
        m.contains_key(id),
    ensures
        m[id].archivable() ==> archived_part(m).contains_key(id) && archived_part(m)[id] == m[id]
            && !active_part(m).contains_key(id),
        !m[id].archivable() ==> active_part(m).contains_key(id) && active_part(m)[id] == m[id]
            && !archived_part(m).contains_key(id),
        active_part(m).dom().subset_of(m.dom()),
        archived_part(m).dom().subset_of(m.dom()),
{
}

/// After archival nothing is left to archive: a second archival takes nothing
/// out and leaves the collection as the first one left it.
pub proof fn law_archival_twice(m: Collection)
    ensures
        archivable_ids(active_part(m)).is_empty(),
        archived_part(active_part(m)) == Collection::empty(),
        active_part(active_part(m)) == active_part(m),
{
    let once = active_part(m);
    assert(archivable_ids(once) =~= Set::<u128>::empty());
    assert(archived_part(once) =~= Collection::empty());
    assert(active_part(once) =~= once);
}

/// Without its last item, a list of a collection is a list of the collection
/// without that item.
pub proof fn lemma_lists_drop_last(m: Collection, s: Seq<TodoView>)
    requires
        lists(m, s),
        s.len() > 0,
    ensures
        lists(m.remove(s.last().id), s.drop_last()),
{
    let rest = m.remove(s.last().id);
    let t = s.drop_last();
    let n = s.len() - 1;
    assert forall|i: int| 0 <= i < t.len() implies rest.contains_key(#[trigger] t[i].id) && rest[t[i].id]
        == t[i].data by {
        assert(t[i] == s[i]);
        assert(s[i].id != s[n].id);
        assert(m.contains_key(s[i].id));
    }
    assert forall|k: u128| #[trigger] rest.contains_key(k) implies exists|i: int|
        0 <= i < t.len() && #[trigger] t[i].id == k by {
        assert(m.contains_key(k));
        let i = choose|i: int| 0 <= i < s.len() && #[trigger] s[i].id == k;
        assert(i < n);
        assert(t[i].id == k);
    }
    assert forall|i: int, j: int| 0 <= i < j < t.len() implies (#[trigger] t[i]).id != (
    #[trigger] t[j]).id by {
        assert(s[i].id != s[j].id);
    }
}

/// Saving and loading gives the collection back. Whatever the order in which
/// the records of a collection were written, reading them into an empty
/// store makes the same collection: the same identifiers with the same
/// fields.
pub proof fn law_save_load_round_trip(m: Collection, records: Seq<TodoView>)
    requires
        lists(m, records),
    ensures
        after_load(Collection::empty(), records) == m,
    decreases records.len(),
{
    if records.len() == 0 {
        assert(m =~= Collection::empty());
    } else {
        let last = records.last();
        lemma_lists_drop_last(m, records);
        law_save_load_round_trip(m.remove(last.id), records.drop_last());
        assert(m.contains_key(last.id) && m[last.id] == last.data);
        assert(m.remove(last.id).insert(last.id, last.data) =~= m);
    }
}

/// The derived ordering is a strict total order on items with different
/// identifiers: no item stands before itself, of two items exactly one
/// stands before the other, and the order is transitive.
pub proof fn law_order_is_strict_and_total(a: TodoView, b: TodoView, c: TodoView)
    ensures
        !precedes(a, a),
        precedes(a, b) ==> !precedes(b, a),
        precedes(a, b) && precedes(b, c) ==> precedes(a, c),
        a.id != b.id ==> precedes(a, b) || precedes(b, a),
{
}

/// A reference that spells a position below the number of items names the
/// item at that position of the derived order. Any other reference, one that
/// spells a higher number too, is read as an identifier, and is invalid if it
/// is none.
pub proof fn law_reference_resolution(m: Collection, text: Seq<char>)
    ensures
        reference_target(m, text) == match index_in_range(text) {
            Some(n) => if n < derive_order(m).len() {
                Some(derive_order(m)[n as int].id)
            } else {
                uuid_parse(text)
            },
            None => uuid_parse(text),
        },
{
}

} // verus!
