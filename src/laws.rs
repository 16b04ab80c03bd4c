use vstd::prelude::*;

use crate::clock::valid_stamp;
use crate::task::{
    add_spec, clear_spec, edit_spec, id_in_range, ids_dense, remove_spec, well_formed, TaskModel,
    valid_priority,
};

verus! {

/// The store after a sequence of `add` calls `(description, priority, created)`,
/// made in order on `start`.
pub open spec fn add_all(start: Seq<TaskModel>, calls: Seq<(Seq<char>, u64, i64)>) -> Seq<
    TaskModel,
>
    decreases calls.len(),
{
    if calls.len() == 0 {
        start
    } else {
        let last = calls.last();
        add_spec(add_all(start, calls.drop_last()), last.0, last.1, last.2)
    }
}

proof fn lemma_valid_adds_dense(calls: Seq<(Seq<char>, u64, i64)>)
    requires
        calls.len() < u64::MAX,
        forall|i: int| 0 <= i < calls.len() ==> valid_priority(#[trigger] calls[i].1),
    ensures
        add_all(Seq::empty(), calls).len() == calls.len(),
        ids_dense(add_all(Seq::empty(), calls)),
    decreases calls.len(),
{
    if calls.len() > 0 {
        let prev = calls.drop_last();
        assert forall|i: int| 0 <= i < prev.len() implies valid_priority(#[trigger] prev[i].1) by {
            assert(prev[i] == calls[i]);
        }
        lemma_valid_adds_dense(prev);
        assert(valid_priority(calls[calls.len() - 1].1));
    }
}

/// Adding tasks with valid priorities to an empty store numbers them densely:
/// after the first `k` adds the store holds `k` tasks with ids `1..=k`.
pub proof fn law_valid_adds_number_densely(calls: Seq<(Seq<char>, u64, i64)>)
    requires
        calls.len() < u64::MAX,
        forall|i: int| 0 <= i < calls.len() ==> valid_priority(#[trigger] calls[i].1),
    ensures
        forall|k: int|
            0 <= k <= calls.len() ==> #[trigger] add_all(Seq::empty(), calls.take(k)).len() == k
                && ids_dense(add_all(Seq::empty(), calls.take(k))),
{
    assert forall|k: int| 0 <= k <= calls.len() implies #[trigger] add_all(
        Seq::empty(),
        calls.take(k),
    ).len() == k && ids_dense(add_all(Seq::empty(), calls.take(k))) by {
        let pre = calls.take(k);
        assert forall|i: int| 0 <= i < pre.len() implies valid_priority(#[trigger] pre[i].1) by {
            assert(pre[i] == calls[i]);
        }
        lemma_valid_adds_dense(pre);
    }
}

/// An `add` whose priority lies outside `1..=5` leaves the store as it was, so
/// it neither changes the length nor uses up an id.
pub proof fn law_invalid_add_changes_nothing(
    s: Seq<TaskModel>,
    task: Seq<char>,
    priority: u64,
    created: i64,
)
    requires
        !valid_priority(priority),
    ensures
        add_spec(s, task, priority, created) == s,
{
}

/// Removing an id that names no task leaves the store as it was.
pub proof fn law_remove_unknown_id_changes_nothing(s: Seq<TaskModel>, id: u64)
    requires
        !id_in_range(s, id),
    ensures
        remove_spec(s, id) == s,
{
}

/// After a successful removal the ids are again `1..=len`, and the surviving
/// tasks keep their descriptions, priorities, creation times and relative order.
pub proof fn law_remove_renumbers_in_order(s: Seq<TaskModel>, id: u64)
    requires
        well_formed(s),
        id_in_range(s, id),
    ensures
        remove_spec(s, id).len() == s.len() - 1,
        ids_dense(remove_spec(s, id)),
        forall|i: int|
            0 <= i < s.len() - 1 ==> {
                let j = if i < id - 1 { i } else { i + 1 };
                &&& (#[trigger] remove_spec(s, id)[i]).task == s[j].task
                &&& remove_spec(s, id)[i].priority == s[j].priority
                &&& remove_spec(s, id)[i].created == s[j].created
            },
{
    assert(s[s.len() - 1].id == s.len());
}

/// Editing with an id that names no task (0 included) leaves every task as it was.
pub proof fn law_edit_unknown_id_changes_nothing(s: Seq<TaskModel>, text: Seq<char>, id: u64)
    requires
        !id_in_range(s, id),
    ensures
        edit_spec(s, text, id) == s,
{
}

/// A successful edit changes the description of the named task and nothing
/// else: every id, priority and creation time stays as it was, and every other
/// task is untouched.
pub proof fn law_edit_changes_only_description(s: Seq<TaskModel>, text: Seq<char>, id: u64)
    requires
        id_in_range(s, id),
    ensures
        edit_spec(s, text, id).len() == s.len(),
        edit_spec(s, text, id)[id - 1].task == text,
        forall|j: int|
            0 <= j < s.len() ==> {
                &&& (#[trigger] edit_spec(s, text, id)[j]).id == s[j].id
                &&& edit_spec(s, text, id)[j].priority == s[j].priority
                &&& edit_spec(s, text, id)[j].created == s[j].created
                &&& j != id - 1 ==> edit_spec(s, text, id)[j] == s[j]
            },
{
}

/// Clearing leaves an empty store whatever it held, and clearing twice is the
/// same as clearing once.
pub proof fn law_clear_idempotent(s: Seq<TaskModel>)
    ensures
        clear_spec(s).len() == 0,
        clear_spec(clear_spec(s)) == clear_spec(s),
{
}

proof fn lemma_adds_well_formed(calls: Seq<(Seq<char>, u64, i64)>)
    requires
        calls.len() < u64::MAX,
        forall|i: int| 0 <= i < calls.len() ==> valid_stamp(#[trigger] calls[i].2),
    ensures
        well_formed(add_all(Seq::empty(), calls)),
        add_all(Seq::empty(), calls).len() <= calls.len(),
    decreases calls.len(),
{
    if calls.len() > 0 {
        let prev = calls.drop_last();
        assert forall|i: int| 0 <= i < prev.len() implies valid_stamp(#[trigger] prev[i].2) by {
            assert(prev[i] == calls[i]);
        }
        lemma_adds_well_formed(prev);
        assert(valid_stamp(calls[calls.len() - 1].2));
    }
}

/// Every store built by `add` calls from an empty one (with creation times in
/// range) meets the invariant that loading checks. Since `from_todos` accepts
/// exactly the records that meet it and keeps them as they are, the records
/// of such a store load back as the same tasks.
pub proof fn law_added_store_reloads(calls: Seq<(Seq<char>, u64, i64)>)
    requires
        calls.len() < u64::MAX,
        forall|i: int| 0 <= i < calls.len() ==> valid_stamp(#[trigger] calls[i].2),
    ensures
        well_formed(add_all(Seq::empty(), calls)),
{
    lemma_adds_well_formed(calls);
}

} // verus!
