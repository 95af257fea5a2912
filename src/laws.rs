//! Properties that relate the registry's operations to one another.
use vstd::prelude::*;

use crate::registry::{
    edited, first_index, first_named_at, found, has_named, loaded, removed, views,
};
use crate::storage::LoadOutcome;
use crate::task::{Task, TaskView};

verus! {

/// After a task whose name no earlier task has is added, a lookup of that
/// name answers the new last position, which holds the task.
pub proof fn lemma_add_then_find(s: Seq<TaskView>, t: TaskView)
    requires
        forall|j: int| 0 <= j < s.len() ==> s[j].name != t.name,
    ensures
        first_named_at(s.push(t), t.name, s.len() as int),
        s.push(t)[s.len() as int] == t,
        forall|r: Option<usize>| #[trigger]
            found(s.push(t), t.name, r) ==> r is Some && r->0 as int == s.len(),
{
    let a = s.push(t);
    assert(forall|j: int| 0 <= j < s.len() ==> a[j] == s[j]);
    assert forall|r: Option<usize>| #[trigger] found(a, t.name, r) implies r is Some && r->0 as int
        == s.len() by {
        match r {
            Some(i) => {
                if (i as int) < s.len() {
                    assert(a[i as int] == s[i as int]);
                }
            },
            None => {
                assert(a[s.len() as int].name == t.name);
            },
        }
    }
}

/// After a successful removal of `n`, a lookup of `n` finds nothing exactly
/// when no other task was called `n`; what it finds otherwise is a later
/// duplicate, moved up by one.
pub proof fn lemma_remove_then_find(s: Seq<TaskView>, n: Seq<char>)
    requires
        has_named(s, n),
    ensures
        forall|r: Option<usize>| #[trigger]
            found(removed(s, n), n, r) ==> (r is None <==> forall|j: int|
                0 <= j < s.len() && j != first_index(s, n) ==> s[j].name != n),
        forall|k: usize| #[trigger]
            found(removed(s, n), n, Some(k)) ==> first_index(s, n) <= k && s[k + 1].name == n,
{
    let i = first_index(s, n);
    assert(first_named_at(s, n, i));
    let d = removed(s, n);
    assert(d == s.remove(i));
    assert(d.len() == s.len() - 1);
    assert(forall|j: int| 0 <= j < i ==> d[j] == s[j]);
    assert(forall|j: int| i <= j < d.len() ==> d[j] == s[j + 1]);
    assert forall|r: Option<usize>| #[trigger] found(d, n, r) implies (r is None <==> forall|j: int|
        0 <= j < s.len() && j != i ==> s[j].name != n) by {
        match r {
            Some(k) => {
                if (k as int) < i {
                    assert(d[k as int] == s[k as int]);
                } else {
                    assert(d[k as int] == s[k + 1]);
                    assert(s[k + 1].name == n);
                }
            },
            None => {
                assert forall|j: int| 0 <= j < s.len() && j != i implies s[j].name != n by {
                    if j < i {
                        assert(d[j] == s[j]);
                    } else {
                        assert(d[j - 1] == s[j]);
                    }
                }
            },
        }
    }
    assert forall|k: usize| #[trigger] found(d, n, Some(k)) implies i <= k && s[k + 1].name
        == n by {
        if (k as int) < i {
            assert(d[k as int] == s[k as int]);
        } else {
            assert(d[k as int] == s[k + 1]);
        }
    }
}

/// Editing the task at position `i` replaces that position alone: the length
/// and every other position stay as they were.
pub proof fn lemma_edit_preserves_position(s: Seq<TaskView>, n: Seq<char>, t: TaskView, i: int)
    requires
        first_named_at(s, n, i),
    ensures
        edited(s, n, t).len() == s.len(),
        edited(s, n, t)[i] == t,
        forall|j: int| 0 <= j < s.len() && j != i ==> #[trigger] edited(s, n, t)[j] == s[j],
{
    assert(has_named(s, n));
    assert(first_index(s, n) == i);
}

/// A load whose file parsed to `saved` leaves the registry holding exactly
/// `saved`, in content and order, whatever it held before.
pub proof fn lemma_load_restores_saved(current: Seq<TaskView>, saved: Vec<Task>)
    ensures
        loaded(current, LoadOutcome::Parsed(saved)) == views(saved@),
{
}

} // verus!
