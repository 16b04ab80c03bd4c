use vstd::prelude::*;

use crate::clock::valid_stamp;
use crate::task::{models, stamps_valid, TaskModel, Todo, TodoList};

verus! {

pub open spec fn has_priority(p: u64) -> spec_fn(TaskModel) -> bool {
    |t: TaskModel| t.priority == p
}

pub open spec fn has_created(c: i64) -> spec_fn(TaskModel) -> bool {
    |t: TaskModel| t.created == c
}

/// The tasks of priority 5 down to `p + 1`, highest priority first, each
/// group in store order.
pub open spec fn groups_above(s: Seq<TaskModel>, p: u64) -> Seq<TaskModel>
    decreases 5 - p,
{
    if p >= 5 {
        Seq::empty()
    } else {
        groups_above(s, (p + 1) as u64) + s.filter(has_priority((p + 1) as u64))
    }
}

/// The display order by priority: highest first, ties in store order.
pub open spec fn priority_order(s: Seq<TaskModel>) -> Seq<TaskModel> {
    groups_above(s, 0)
}

/// Creation times never decrease along the sequence.
pub open spec fn sorted_by_created(s: Seq<TaskModel>) -> bool {
    forall|i: int, j: int| 0 <= i < j < s.len() ==> s[i].created <= s[j].created
}

/// `r` is `s` sorted by creation time, earliest first, tasks created in the same
/// second kept in store order. These conditions fix `r` given `s`.
pub open spec fn is_creation_order(s: Seq<TaskModel>, r: Seq<TaskModel>) -> bool {
    &&& r.len() == s.len()
    &&& sorted_by_created(r)
    &&& forall|c: i64| #[trigger] r.filter(has_created(c)) == s.filter(has_created(c))
}

proof fn lemma_filter_none(x: Seq<TaskModel>, pred: spec_fn(TaskModel) -> bool)
    requires
        forall|i: int| 0 <= i < x.len() ==> !pred(#[trigger] x[i]),
    ensures
        x.filter(pred) == Seq::<TaskModel>::empty(),
    decreases x.len(),
{
    reveal(Seq::filter);
    if x.len() > 0 {
        let d = x.drop_last();
        assert forall|i: int| 0 <= i < d.len() implies !pred(#[trigger] d[i]) by {
            assert(d[i] == x[i]);
        }
        lemma_filter_none(d, pred);
        assert(!pred(x[x.len() - 1]));
    }
}

proof fn lemma_filter_priority_twice(x: Seq<TaskModel>, a: u64, b: u64)
    ensures
        x.filter(has_priority(a)).filter(has_priority(b)) == if a == b {
            x.filter(has_priority(a))
        } else {
            Seq::<TaskModel>::empty()
        },
    decreases x.len(),
{
    reveal(Seq::filter);
    if x.len() > 0 {
        lemma_filter_priority_twice(x.drop_last(), a, b);
        let d = x.drop_last();
        assert(x =~= d.push(x.last()));
        d.lemma_filter_push(x.last(), has_priority(a));
        d.filter(has_priority(a)).lemma_filter_push(x.last(), has_priority(b));
    }
}

proof fn lemma_groups_above_filter(s: Seq<TaskModel>, p: u64, q: u64)
    requires
        p <= 5,
        1 <= q <= 5,
    ensures
        groups_above(s, p).filter(has_priority(q)) == if p < q {
            s.filter(has_priority(q))
        } else {
            Seq::<TaskModel>::empty()
        },
    decreases 5 - p,
{
    reveal(Seq::filter);
    if p < 5 {
        let np = (p + 1) as u64;
        lemma_groups_above_filter(s, np, q);
        Seq::filter_distributes_over_add(
            groups_above(s, np),
            s.filter(has_priority(np)),
            has_priority(q),
        );
        lemma_filter_priority_twice(s, np, q);
        assert(Seq::<TaskModel>::empty() + s.filter(has_priority(q)) =~= s.filter(has_priority(q)));
        assert(s.filter(has_priority(q)) + Seq::<TaskModel>::empty() =~= s.filter(has_priority(q)));
        assert(Seq::<TaskModel>::empty() + Seq::<TaskModel>::empty() =~= Seq::<TaskModel>::empty());
    }
}

proof fn lemma_groups_above_from_store(s: Seq<TaskModel>, p: u64)
    requires
        p <= 5,
    ensures
        forall|i: int| 0 <= i < groups_above(s, p).len() ==> s.contains(#[trigger] groups_above(s, p)[i]),
    decreases 5 - p,
{
    if p < 5 {
        let np = (p + 1) as u64;
        lemma_groups_above_from_store(s, np);
        let a = groups_above(s, np);
        let b = s.filter(has_priority(np));
        assert forall|i: int| 0 <= i < groups_above(s, p).len() implies s.contains(
            #[trigger] groups_above(s, p)[i],
        ) by {
            if i < a.len() {
                assert(groups_above(s, p)[i] == a[i]);
            } else {
                assert(groups_above(s, p)[i] == b[i - a.len()]);
                assert(b.contains(b[i - a.len()]));
                s.lemma_filter_contains_rev(has_priority(np), b[i - a.len()]);
            }
        }
    }
}

proof fn lemma_priority_order_stamps(s: Seq<TaskModel>)
    requires
        stamps_valid(s),
    ensures
        stamps_valid(priority_order(s)),
{
    lemma_groups_above_from_store(s, 0);
    let r = priority_order(s);
    assert forall|i: int| 0 <= i < r.len() implies valid_stamp(#[trigger] r[i].created) by {
        let j = choose|j: int| 0 <= j < s.len() && s[j] == r[i];
    }
}

proof fn lemma_creation_order_stamps(s: Seq<TaskModel>, r: Seq<TaskModel>)
    requires
        stamps_valid(s),
        is_creation_order(s, r),
    ensures
        stamps_valid(r),
{
    assert forall|i: int| 0 <= i < r.len() implies valid_stamp(#[trigger] r[i].created) by {
        let c = r[i].created;
        r.lemma_filter_contains(has_created(c), i);
        assert(s.filter(has_created(c)) == r.filter(has_created(c)));
        s.lemma_filter_contains_rev(has_created(c), r[i]);
        let j = choose|j: int| 0 <= j < s.len() && s[j] == r[i];
    }
}

/// Ordering by priority is stable: for each priority, the tasks that have it
/// appear in the ordered view exactly as, and in the order that, they appear
/// in the store.
pub proof fn law_priority_order_stable(s: Seq<TaskModel>, q: u64)
    requires
        1 <= q <= 5,
    ensures
        priority_order(s).filter(has_priority(q)) == s.filter(has_priority(q)),
{
    lemma_groups_above_filter(s, 0, q);
}

impl TodoList {
    /// The tasks ordered by priority, highest first; tasks of equal priority
    /// keep their store order. The store itself is not changed.
    pub fn order_by_priority(&self) -> (r: Vec<Todo>)
        requires
            self.wf(),
        ensures
            models(r@) == priority_order(self@),
            stamps_valid(models(r@)),
    {
        proof {
            lemma_priority_order_stamps(self@);
        }
        let ghost s = self@;
        let n = self.todos.len();
        let mut out: Vec<Todo> = Vec::new();
        let mut p: u64 = 5;
        while p >= 1
            invariant
                s == self@,
                n == s.len(),
                p <= 5,
                models(out@) == groups_above(s, p),
            decreases p,
        {
            let mut i: usize = 0;
            assert(s.take(0).filter(has_priority(p)) =~= Seq::<TaskModel>::empty()) by {
                reveal(Seq::filter);
            }
            assert(models(out@) =~= groups_above(s, p) + s.take(0).filter(has_priority(p)));
            while i < n
                invariant
                    s == self@,
                    n == s.len(),
                    1 <= p <= 5,
                    0 <= i <= n,
                    models(out@) == groups_above(s, p) + s.take(i as int).filter(has_priority(p)),
                decreases n - i,
            {
                let t = &self.todos[i];
                proof {
                    assert(s.take(i + 1) =~= s.take(i as int).push(s[i as int]));
                    s.take(i as int).lemma_filter_push(s[i as int], has_priority(p));
                }
                if t.priority == p {
                    let ghost before = out@;
                    out.push(t.duplicate());
                    assert(models(out@) =~= models(before).push(t@));
                }
                i += 1;
            }
            assert(s.take(n as int) =~= s);
            p -= 1;
        }
        out
    }

    /// The tasks ordered by creation time, earliest first; tasks created in the
    /// same second keep their store order. The store itself is not changed.
    pub fn order_by_creation(&self) -> (r: Vec<Todo>)
        requires
            self.wf(),
        ensures
            is_creation_order(self@, models(r@)),
            stamps_valid(models(r@)),
    {
        let ghost s = self@;
        let n = self.todos.len();
        let mut out: Vec<Todo> = Vec::new();
        let mut i: usize = 0;
        assert forall|c: i64| #[trigger] models(out@).filter(has_created(c)) == s.take(0).filter(
            has_created(c),
        ) by {
            reveal(Seq::filter);
            assert(models(out@) =~= Seq::<TaskModel>::empty());
            assert(s.take(0) =~= Seq::<TaskModel>::empty());
        }
        while i < n
            invariant
                s == self@,
                n == s.len(),
                0 <= i <= n,
                out@.len() == i,
                sorted_by_created(models(out@)),
                forall|c: i64| #[trigger]
                    models(out@).filter(has_created(c)) == s.take(i as int).filter(
                        has_created(c),
                    ),
            decreases n - i,
        {
            let t = &self.todos[i];
            let ghost o = models(out@);
            let mut k: usize = 0;
            while k < out.len() && out[k].created <= t.created
                invariant
                    o == models(out@),
                    0 <= k <= out@.len(),
                    forall|j: int| 0 <= j < k ==> (#[trigger] o[j]).created <= t.created,
                decreases out@.len() - k,
            {
                k += 1;
            }
            proof {
                assert forall|j: int| k <= j < o.len() implies (#[trigger] o[j]).created
                    > t.created by {
                    assert(o[k as int].created > t.created);
                }
            }
            out.insert(k, t.duplicate());
            proof {
                let x = t@;
                let o2 = models(out@);
                let pre = o.take(k as int);
                let post = o.skip(k as int);
                assert(o2 =~= pre + seq![x] + post);
                assert(o =~= pre + post);
                assert(s.take(i + 1) =~= s.take(i as int).push(x));
                assert forall|c: i64| #[trigger] o2.filter(has_created(c)) == s.take(i + 1).filter(
                    has_created(c),
                ) by {
                    s.take(i as int).lemma_filter_push(x, has_created(c));
                    Seq::filter_distributes_over_add(pre + seq![x], post, has_created(c));
                    Seq::filter_distributes_over_add(pre, seq![x], has_created(c));
                    Seq::filter_distributes_over_add(pre, post, has_created(c));
                    assert(seq![x] =~= Seq::<TaskModel>::empty().push(x));
                    Seq::<TaskModel>::empty().lemma_filter_push(x, has_created(c));
                    assert(Seq::<TaskModel>::empty().filter(has_created(c)) =~= Seq::<
                        TaskModel,
                    >::empty()) by {
                        reveal(Seq::filter);
                    }
                    if c == x.created {
                        assert forall|j: int| 0 <= j < post.len() implies !has_created(c)(
                            #[trigger] post[j],
                        ) by {
                            assert(post[j] == o[k + j]);
                        }
                        lemma_filter_none(post, has_created(c));
                        assert(pre.filter(has_created(c)) + seq![x] + Seq::<TaskModel>::empty()
                            =~= (pre.filter(has_created(c)) + Seq::<TaskModel>::empty()).push(x));
                    } else {
                        assert(pre.filter(has_created(c)) + Seq::<TaskModel>::empty()
                            =~= pre.filter(has_created(c)));
                    }
                }
                assert forall|a: int, b: int| 0 <= a < b < o2.len() implies o2[a].created
                    <= o2[b].created by {
                    if b < k {
                    } else if b == k {
                    } else if a < k {
                    } else if a == k {
                        assert(o2[b] == o[b - 1]);
                    } else {
                        assert(o2[a] == o[a - 1]);
                        assert(o2[b] == o[b - 1]);
                    }
                }
            }
            i += 1;
        }
        assert(s.take(n as int) =~= s);
        proof {
            lemma_creation_order_stamps(s, models(out@));
        }
        out
    }
}

} // verus!
