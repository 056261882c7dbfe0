//! The derived ordering: the order in which the items of a collection are
//! shown and counted. It is never stored. It goes by priority, lower rank
//! first; among equal priorities by creation time, earlier first; and among
//! items equal in both by identifier, so that one collection has one order.

use vstd::prelude::*;
use crate::item::{Todo, TodoDataView, TodoView, views};

verus! {

/// Whether `a` stands before `b` in the derived ordering.
pub open spec fn precedes(a: TodoView, b: TodoView) -> bool {
    ||| a.data.priority < b.data.priority
    ||| a.data.priority == b.data.priority && a.data.created_at < b.data.created_at
    ||| a.data.priority == b.data.priority && a.data.created_at == b.data.created_at && a.id
        < b.id
}

/// Whether every item of `s` stands before all that follow it.
pub open spec fn sorted(s: Seq<TodoView>) -> bool {
    forall|i: int, j: int| 0 <= i < j < s.len() ==> precedes(#[trigger] s[i], #[trigger] s[j])
}

/// Whether `s` holds each entry of `m` exactly once and nothing else.
pub open spec fn lists(m: Map<u128, TodoDataView>, s: Seq<TodoView>) -> bool {
    &&& forall|i: int|
        0 <= i < s.len() ==> m.contains_key(#[trigger] s[i].id) && m[s[i].id] == s[i].data
    &&& forall|k: u128| #[trigger]
        m.contains_key(k) ==> exists|i: int| 0 <= i < s.len() && #[trigger] s[i].id == k
    &&& forall|i: int, j: int|
        0 <= i < j < s.len() ==> (#[trigger] s[i]).id != (#[trigger] s[j]).id
}

/// Whether `s` is the collection `m` in derived order.
pub open spec fn is_derived_order(m: Map<u128, TodoDataView>, s: Seq<TodoView>) -> bool {
    lists(m, s) && sorted(s)
}

/// The collection `m` in derived order.
pub open spec fn derive_order(m: Map<u128, TodoDataView>) -> Seq<TodoView> {
    choose|s: Seq<TodoView>| is_derived_order(m, s)
}

/// The identifiers of a list of items, in the order of the list.
pub open spec fn ids_of(s: Seq<TodoView>) -> Seq<u128> {
    s.map_values(|t: TodoView| t.id)
}

/// A list of a collection is as long as the collection is large.
pub proof fn lemma_lists_len(m: Map<u128, TodoDataView>, s: Seq<TodoView>)
    requires
        lists(m, s),
    ensures
        m.dom().finite(),
        s.len() == m.dom().len(),
        ids_of(s).no_duplicates(),
        ids_of(s).to_set() == m.dom(),
{
    let ids = ids_of(s);
    assert(ids.no_duplicates()) by {
        assert forall|i: int, j: int| 0 <= i < ids.len() && 0 <= j < ids.len() && i != j implies ids[i]
            != ids[j] by {
            if i < j {
                assert(s[i].id != s[j].id);
            } else {
                assert(s[j].id != s[i].id);
            }
        }
    }
    assert(ids.to_set() =~= m.dom()) by {
        assert forall|k: u128| ids.to_set().contains(k) <==> m.dom().contains(k) by {
            if ids.to_set().contains(k) {
                let i = choose|i: int| 0 <= i < ids.len() && ids[i] == k;
                assert(m.contains_key(s[i].id));
            }
            if m.contains_key(k) {
                let i = choose|i: int| 0 <= i < s.len() && #[trigger] s[i].id == k;
                assert(ids[i] == k);
            }
        }
    }
    ids.unique_seq_to_set();
}

/// A collection has at most one derived order.
pub proof fn lemma_derived_order_unique(
    m: Map<u128, TodoDataView>,
    s1: Seq<TodoView>,
    s2: Seq<TodoView>,
)
    requires
        is_derived_order(m, s1),
        is_derived_order(m, s2),
    ensures
        s1 == s2,
    decreases s1.len(),
{
    lemma_lists_len(m, s1);
    lemma_lists_len(m, s2);
    if s1.len() == 0 {
        assert(s1 =~= s2);
    } else {
        let a = s1[0];
        let b = s2[0];
        assert(m.contains_key(a.id));
        assert(m.contains_key(b.id));
        let j = choose|j: int| 0 <= j < s2.len() && #[trigger] s2[j].id == a.id;
        let i = choose|i: int| 0 <= i < s1.len() && #[trigger] s1[i].id == b.id;
        assert(s2[j] == a);
        assert(s1[i] == b);
        if j > 0 {
            assert(precedes(s2[0], s2[j]));
            if i > 0 {
                assert(precedes(s1[0], s1[i]));
            }
        }
        assert(a == b);
        let rest = m.remove(a.id);
        let t1 = s1.drop_first();
        let t2 = s2.drop_first();
        lemma_drop_first_is_derived_order(m, s1);
        lemma_drop_first_is_derived_order(m, s2);
        lemma_derived_order_unique(rest, t1, t2);
        assert(s1 =~= seq![a] + t1);
        assert(s2 =~= seq![b] + t2);
    }
}

/// Without its first item, a derived order is the derived order of the
/// collection without that item.
pub proof fn lemma_drop_first_is_derived_order(m: Map<u128, TodoDataView>, s: Seq<TodoView>)
    requires
        is_derived_order(m, s),
        s.len() > 0,
    ensures
        is_derived_order(m.remove(s[0].id), s.drop_first()),
{
    let rest = m.remove(s[0].id);
    let t = s.drop_first();
    assert forall|i: int| 0 <= i < t.len() implies rest.contains_key(#[trigger] t[i].id) && rest[t[i].id]
        == t[i].data by {
        assert(t[i] == s[i + 1]);
        assert(s[0].id != s[i + 1].id);
        assert(m.contains_key(s[i + 1].id));
    }
    assert forall|k: u128| #[trigger] rest.contains_key(k) implies exists|i: int|
        0 <= i < t.len() && #[trigger] t[i].id == k by {
        assert(m.contains_key(k));
        let i = choose|i: int| 0 <= i < s.len() && #[trigger] s[i].id == k;
        assert(i > 0);
        assert(t[i - 1].id == k);
    }
    assert forall|i: int, j: int| 0 <= i < j < t.len() implies (#[trigger] t[i]).id != (
    #[trigger] t[j]).id by {
        assert(s[i + 1].id != s[j + 1].id);
    }
    assert forall|i: int, j: int| 0 <= i < j < t.len() implies precedes(
        #[trigger] t[i],
        #[trigger] t[j],
    ) by {
        assert(precedes(s[i + 1], s[j + 1]));
    }
}

/// A sequence that is a derived order of `m` is the derived order of `m`.
pub proof fn lemma_derive_order_is(m: Map<u128, TodoDataView>, s: Seq<TodoView>)
    requires
        is_derived_order(m, s),
    ensures
        derive_order(m) == s,
        s.len() == m.dom().len(),
{
    lemma_derived_order_unique(m, derive_order(m), s);
    lemma_lists_len(m, s);
}

/// A list stays a list when a new entry goes into the collection and, at any
/// place, into the list.
pub proof fn lemma_lists_insert(
    m: Map<u128, TodoDataView>,
    s: Seq<TodoView>,
    at: int,
    t: TodoView,
)
    requires
        lists(m, s),
        !m.contains_key(t.id),
        0 <= at <= s.len(),
    ensures
        lists(m.insert(t.id, t.data), s.insert(at, t)),
{
    let m2 = m.insert(t.id, t.data);
    let s2 = s.insert(at, t);
    assert forall|i: int| 0 <= i < s2.len() implies m2.contains_key(#[trigger] s2[i].id) && m2[s2[i].id]
        == s2[i].data by {
        if i < at {
            assert(s2[i] == s[i]);
            assert(m.contains_key(s[i].id));
        } else if i > at {
            assert(s2[i] == s[i - 1]);
            assert(m.contains_key(s[i - 1].id));
        }
    }
    assert forall|k: u128| #[trigger] m2.contains_key(k) implies exists|i: int|
        0 <= i < s2.len() && #[trigger] s2[i].id == k by {
        if k == t.id {
            assert(s2[at].id == k);
        } else {
            assert(m.contains_key(k));
            let i = choose|i: int| 0 <= i < s.len() && #[trigger] s[i].id == k;
            if i < at {
                assert(s2[i].id == k);
            } else {
                assert(s2[i + 1].id == k);
            }
        }
    }
    assert forall|i: int, j: int| 0 <= i < j < s2.len() implies (#[trigger] s2[i]).id != (
    #[trigger] s2[j]).id by {
        let a = if i < at {
            i
        } else {
            i - 1
        };
        let b = if j < at {
            j
        } else {
            j - 1
        };
        if i == at {
            assert(s2[j] == s[b]);
            assert(m.contains_key(s[b].id));
        } else if j == at {
            assert(s2[i] == s[a]);
            assert(m.contains_key(s[a].id));
        } else {
            assert(s2[i] == s[a]);
            assert(s2[j] == s[b]);
            assert(s[a].id != s[b].id);
        }
    }
}

/// Whether `a` stands before `b` in the derived ordering.
pub fn comes_before(a: &Todo, b: &Todo) -> (r: bool)
    ensures
        r == precedes(a@, b@),
{
    if a.data.priority != b.data.priority {
        a.data.priority < b.data.priority
    } else if a.data.created_at != b.data.created_at {
        a.data.created_at < b.data.created_at
    } else {
        a.id < b.id
    }
}

/// Puts `todo` into the list before the first item that does not stand before
/// it, and returns that place. In a sorted list that holds no item with the
/// identifier of `todo` this is the one place that keeps the list sorted.
pub fn insert_sorted(list: &mut Vec<Todo>, todo: Todo) -> (at: usize)
    ensures
        at <= old(list)@.len(),
        forall|i: int| 0 <= i < at ==> precedes(#[trigger] old(list)@[i]@, todo@),
        at < old(list)@.len() ==> !precedes(old(list)@[at as int]@, todo@),
        final(list)@ == old(list)@.insert(at as int, todo),
        views(final(list)@) == views(old(list)@).insert(at as int, todo@),
        sorted(views(old(list)@)) && (forall|i: int|
            0 <= i < old(list)@.len() ==> (#[trigger] old(list)@[i]).id != todo.id) ==> sorted(
            views(final(list)@),
        ),
{
    let mut at: usize = 0;
    while at < list.len() && comes_before(&list[at], &todo)
        invariant
            at <= list@.len(),
            list@ == old(list)@,
            forall|i: int| 0 <= i < at ==> precedes(#[trigger] list@[i]@, todo@),
        decreases list@.len() - at,
    {
        at += 1;
    }
    let ghost before = views(list@);
    list.insert(at, todo);
    proof {
        let after = views(list@);
        assert(after =~= before.insert(at as int, todo@));
        if sorted(before) && (forall|i: int|
            0 <= i < old(list)@.len() ==> (#[trigger] old(list)@[i]).id != todo.id) {
            assert forall|i: int, j: int| 0 <= i < j < after.len() implies precedes(
                #[trigger] after[i],
                #[trigger] after[j],
            ) by {
                if j < at {
                    assert(precedes(before[i], before[j]));
                } else if j == at {
                    assert(before[i] == old(list)@[i]@);
                } else if i < at {
                    assert(precedes(before[i], before[j - 1]));
                } else if i == at {
                    assert(before[at as int] == old(list)@[at as int]@);
                    assert(old(list)@[at as int].id != todo.id);
                    if j - 1 > at {
                        assert(precedes(before[at as int], before[j - 1]));
                    }
                } else {
                    assert(precedes(before[i - 1], before[j - 1]));
                }
            }
        }
    }
    at
}

} // verus!
