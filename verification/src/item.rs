//! The items of the store and their lifecycle.
//!
//! Every lifecycle field is a pair of an optional timestamp and the current
//! status. A transition sets the timestamp only if it is still unset and then
//! sets the status, so a timestamp that was written once is never written
//! again. Timestamps are whole seconds since the Unix epoch.

use vstd::prelude::*;

verus! {

/// Lowest display priority; the rank of an item whose priority was never set.
pub const DEFAULT_PRIORITY: u8 = 255;

/// Where an item stands in its lifecycle.
#[derive(Clone, Copy, Debug, PartialEq, Eq, Structural)]
pub enum TodoStatus {
    Pending,
    InProgress,
    Completed,
    Deleted,
}

/// The attributes of one item.
#[derive(Debug, PartialEq, Eq)]
pub struct TodoData {
    pub title: String,
    pub description: Option<String>,
    pub priority: u8,
    pub status: TodoStatus,
    pub created_at: i64,
    pub in_progress_at: Option<i64>,
    pub completed_at: Option<i64>,
    pub deleted_at: Option<i64>,
}

/// An item together with its identifier.
#[derive(Debug, PartialEq, Eq)]
pub struct Todo {
    pub id: u128,
    pub data: TodoData,
}

/// The mathematical value of a [`TodoData`].
pub ghost struct TodoDataView {
    pub title: Seq<char>,
    pub description: Option<Seq<char>>,
    pub priority: u8,
    pub status: TodoStatus,
    pub created_at: i64,
    pub in_progress_at: Option<i64>,
    pub completed_at: Option<i64>,
    pub deleted_at: Option<i64>,
}

/// The mathematical value of a [`Todo`].
pub ghost struct TodoView {
    pub id: u128,
    pub data: TodoDataView,
}

/// `current` if it is set, else `now`: the rule of a timestamp that is written
/// at most once.
pub open spec fn sticky(current: Option<i64>, now: i64) -> Option<i64> {
    if current is Some {
        current
    } else {
        Some(now)
    }
}

/// The text of an optional string.
pub open spec fn text_of(s: Option<String>) -> Option<Seq<char>> {
    match s {
        Some(t) => Some(t@),
        None => None,
    }
}

/// The text of an optional borrowed string.
pub open spec fn text_of_ref(s: Option<&String>) -> Option<Seq<char>> {
    match s {
        Some(t) => Some(t@),
        None => None,
    }
}

/// The value of an optional borrowed value.
pub open spec fn value_of_ref<T>(v: Option<&T>) -> Option<T> {
    match v {
        Some(x) => Some(*x),
        None => None,
    }
}

/// Whether an optional flag is present and raised.
pub open spec fn raised(flag: Option<bool>) -> bool {
    flag == Some(true)
}

/// The fields of an item that one update request may change. An absent field
/// leaves the item as it is, and so does a flag that is present but `false`.
pub ghost struct Changes {
    pub title: Option<Seq<char>>,
    pub description: Option<Seq<char>>,
    pub priority: Option<u8>,
    pub in_progress: Option<bool>,
    pub completed: Option<bool>,
    pub deleted: Option<bool>,
}

impl TodoDataView {
    /// A newly created item: pending, or in progress from the start.
    pub open spec fn created(
        title: Seq<char>,
        description: Option<Seq<char>>,
        priority: u8,
        in_progress: bool,
        now: i64,
    ) -> TodoDataView {
        TodoDataView {
            title,
            description,
            priority,
            status: if in_progress {
                TodoStatus::InProgress
            } else {
                TodoStatus::Pending
            },
            created_at: now,
            in_progress_at: if in_progress {
                Some(now)
            } else {
                None
            },
            completed_at: None,
            deleted_at: None,
        }
    }

    /// The item after work on it was started at `now`.
    pub open spec fn started(self, now: i64) -> TodoDataView {
        TodoDataView {
            in_progress_at: sticky(self.in_progress_at, now),
            status: TodoStatus::InProgress,
            ..self
        }
    }

    /// The item after it was marked completed at `now`: the timestamp is kept if
    /// it was set, the status is set in any case.
    pub open spec fn marked_completed(self, now: i64) -> TodoDataView {
        TodoDataView {
            completed_at: sticky(self.completed_at, now),
            status: TodoStatus::Completed,
            ..self
        }
    }

    /// The item after it was marked deleted at `now`: the timestamp is kept if it
    /// was set, the status is set in any case.
    pub open spec fn marked_deleted(self, now: i64) -> TodoDataView {
        TodoDataView {
            deleted_at: sticky(self.deleted_at, now),
            status: TodoStatus::Deleted,
            ..self
        }
    }

    /// The item after a request to complete it at `now`. A second request is
    /// redundant and changes nothing, the status included.
    pub open spec fn completed(self, now: i64) -> TodoDataView {
        if self.completed_at is None {
            self.marked_completed(now)
        } else {
            self
        }
    }

    /// The item after a request to delete it at `now`. A second request is
    /// redundant and changes nothing, the status included.
    pub open spec fn deleted(self, now: i64) -> TodoDataView {
        if self.deleted_at is None {
            self.marked_deleted(now)
        } else {
            self
        }
    }

    /// The item with the plain fields of `changes` written over its own.
    pub open spec fn with_fields(self, changes: Changes) -> TodoDataView {
        TodoDataView {
            title: match changes.title {
                Some(t) => t,
                None => self.title,
            },
            description: match changes.description {
                Some(d) => Some(d),
                None => self.description,
            },
            priority: match changes.priority {
                Some(p) => p,
                None => self.priority,
            },
            ..self
        }
    }

    /// The item after an update at `now`. The plain fields come first; then the
    /// raised flags are applied in the order in-progress, completed, deleted, so
    /// the status is that of the last raised flag.
    pub open spec fn updated(self, changes: Changes, now: i64) -> TodoDataView {
        let a = self.with_fields(changes);
        let b = if raised(changes.in_progress) {
            a.started(now)
        } else {
            a
        };
        let c = if raised(changes.completed) {
            b.marked_completed(now)
        } else {
            b
        };
        if raised(changes.deleted) {
            c.marked_deleted(now)
        } else {
            c
        }
    }

    /// Whether archival takes the item out of the active set.
    pub open spec fn archivable(self) -> bool {
        self.completed_at is Some || self.deleted_at is Some
    }

    /// The invariant of an item: a title, and no lifecycle timestamp before the
    /// creation.
    pub open spec fn well_formed(self) -> bool {
        &&& self.title.len() > 0
        &&& self.in_progress_at matches Some(t) ==> t >= self.created_at
        &&& self.completed_at matches Some(t) ==> t >= self.created_at
        &&& self.deleted_at matches Some(t) ==> t >= self.created_at
    }
}

impl View for TodoData {
    type V = TodoDataView;

    open spec fn view(&self) -> TodoDataView {
        TodoDataView {
            title: self.title@,
            description: text_of(self.description),
            priority: self.priority,
            status: self.status,
            created_at: self.created_at,
            in_progress_at: self.in_progress_at,
            completed_at: self.completed_at,
            deleted_at: self.deleted_at,
        }
    }
}

impl View for Todo {
    type V = TodoView;

    open spec fn view(&self) -> TodoView {
        TodoView { id: self.id, data: self.data@ }
    }
}

/// The values of a list of items, in the order of the list.
pub open spec fn views(todos: Seq<Todo>) -> Seq<TodoView> {
    todos.map_values(|t: Todo| t@)
}

/// A copy of an optional string.
pub fn clone_text(s: &Option<String>) -> (r: Option<String>)
    ensures
        text_of(r) == text_of(*s),
{
    match s {
        Some(t) => Some(t.clone()),
        None => None,
    }
}

/// An owned copy of an optional borrowed string.
pub fn own_text(s: Option<&String>) -> (r: Option<String>)
    ensures
        text_of(r) == text_of_ref(s),
{
    match s {
        Some(t) => Some(t.clone()),
        None => None,
    }
}

impl Clone for TodoData {
    fn clone(&self) -> (r: Self)
        ensures
            r@ == self@,
    {
        TodoData {
            title: self.title.clone(),
            description: clone_text(&self.description),
            priority: self.priority,
            status: self.status,
            created_at: self.created_at,
            in_progress_at: self.in_progress_at,
            completed_at: self.completed_at,
            deleted_at: self.deleted_at,
        }
    }
}

impl Clone for Todo {
    fn clone(&self) -> (r: Self)
        ensures
            r@ == self@,
    {
        Todo { id: self.id, data: self.data.clone() }
    }
}

impl TodoData {
    /// Creates an item at `now`: pending, or in progress if `in_progress` is set.
    /// `created_at` is `now`; `in_progress_at` is `now` exactly if the item
    /// starts in progress; no other timestamp is set.
    pub fn new(
        title: &String,
        description: Option<&String>,
        priority: u8,
        in_progress: bool,
        now: i64,
    ) -> (data: TodoData)
        ensures
            data@ == TodoDataView::created(
                title@,
                text_of_ref(description),
                priority,
                in_progress,
                now,
            ),
    {
        TodoData {
            title: title.clone(),
            description: own_text(description),
            priority,
            status: if in_progress {
                TodoStatus::InProgress
            } else {
                TodoStatus::Pending
            },
            created_at: now,
            in_progress_at: if in_progress {
                Some(now)
            } else {
                None
            },
            completed_at: None,
            deleted_at: None,
        }
    }

    /// Starts work on the item: sets `in_progress_at` if it is unset, and the
    /// status in any case.
    pub fn start(&mut self, now: i64)
        ensures
            final(self)@ == old(self)@.started(now),
    {
        if self.in_progress_at.is_none() {
            self.in_progress_at = Some(now);
        }
        self.status = TodoStatus::InProgress;
    }

    /// Marks the item completed: sets `completed_at` if it is unset, and the
    /// status in any case.
    pub fn mark_completed(&mut self, now: i64)
        ensures
            final(self)@ == old(self)@.marked_completed(now),
    {
        if self.completed_at.is_none() {
            self.completed_at = Some(now);
        }
        self.status = TodoStatus::Completed;
    }

    /// Marks the item deleted: sets `deleted_at` if it is unset, and the status
    /// in any case.
    pub fn mark_deleted(&mut self, now: i64)
        ensures
            final(self)@ == old(self)@.marked_deleted(now),
    {
        if self.deleted_at.is_none() {
            self.deleted_at = Some(now);
        }
        self.status = TodoStatus::Deleted;
    }

    /// Completes the item unless it was completed before. Returns whether the
    /// item changed; a redundant request leaves every field as it was.
    pub fn complete(&mut self, now: i64) -> (changed: bool)
        ensures
            changed == (old(self).completed_at is None),
            final(self)@ == old(self)@.completed(now),
    {
        if self.completed_at.is_none() {
            self.completed_at = Some(now);
            self.status = TodoStatus::Completed;
            true
        } else {
            false
        }
    }

    /// Deletes the item unless it was deleted before. Returns whether the item
    /// changed; a redundant request leaves every field as it was.
    pub fn delete(&mut self, now: i64) -> (changed: bool)
        ensures
            changed == (old(self).deleted_at is None),
            final(self)@ == old(self)@.deleted(now),
    {
        if self.deleted_at.is_none() {
            self.deleted_at = Some(now);
            self.status = TodoStatus::Deleted;
            true
        } else {
            false
        }
    }

    /// Applies an update request at `now`: the fields that are present, then the
    /// raised flags in the order in-progress, completed, deleted.
    pub fn update(
        &mut self,
        title: Option<&String>,
        description: Option<&String>,
        priority: Option<&u8>,
        in_progress: Option<&bool>,
        completed: Option<&bool>,
        deleted: Option<&bool>,
        now: i64,
    )
        ensures
            final(self)@ == old(self)@.updated(
                changes_of(title, description, priority, in_progress, completed, deleted),
                now,
            ),
    {
        if let Some(t) = title {
            self.title = t.clone();
        }
        if let Some(d) = description {
            self.description = Some(d.clone());
        }
        if let Some(p) = priority {
            self.priority = *p;
        }
        if let Some(flag) = in_progress {
            if *flag {
                self.start(now);
            }
        }
        if let Some(flag) = completed {
            if *flag {
                self.mark_completed(now);
            }
        }
        if let Some(flag) = deleted {
            if *flag {
                self.mark_deleted(now);
            }
        }
    }

    /// Whether archival takes the item out of the active set.
    pub fn is_archivable(&self) -> (b: bool)
        ensures
            b == self@.archivable(),
    {
        self.completed_at.is_some() || self.deleted_at.is_some()
    }
}

/// The update request that the arguments of [`TodoData::update`] stand for.
pub open spec fn changes_of(
    title: Option<&String>,
    description: Option<&String>,
    priority: Option<&u8>,
    in_progress: Option<&bool>,
    completed: Option<&bool>,
    deleted: Option<&bool>,
) -> Changes {
    Changes {
        title: text_of_ref(title),
        description: text_of_ref(description),
        priority: value_of_ref(priority),
        in_progress: value_of_ref(in_progress),
        completed: value_of_ref(completed),
        deleted: value_of_ref(deleted),
    }
}

} // verus!
