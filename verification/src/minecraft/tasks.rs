//! The macro tasks of an instance: those still running, oldest first, and
//! those that ended, most recently ended first. Both lists keep the order
//! the tasks were started in among tasks of the same time.
use vstd::prelude::*;

use crate::events::ExitStatus;
use crate::types::MacroPID;

verus! {

broadcast use vstd::seq_lib::group_seq_properties;

// ---------------------------------------------------------------------------
// Stable sorting by an integer key
// ---------------------------------------------------------------------------

/// Whether the keys of a sequence of keyed items never decrease.
pub open spec fn spec_keys_sorted<T>(s: Seq<(i128, T)>) -> bool {
    forall|i: int, j: int| 0 <= i < j < s.len() ==> s[i].0 <= s[j].0
}

/// Whether a keyed item has the key `k`.
pub open spec fn spec_key_is<T>(k: i128) -> spec_fn((i128, T)) -> bool {
    |e: (i128, T)| e.0 == k
}

/// Whether `r` is `s` sorted by key, stably: its keys never decrease, and
/// the items of each key come in the order they have in `s`.
pub open spec fn spec_stably_sorted<T>(r: Seq<(i128, T)>, s: Seq<(i128, T)>) -> bool {
    &&& spec_keys_sorted(r)
    &&& forall|k: i128| #[trigger] r.filter(spec_key_is(k)) == s.filter(spec_key_is(k))
}

proof fn lemma_filter_none<T>(s: Seq<(i128, T)>, k: i128)
    requires
        forall|j: int| 0 <= j < s.len() ==> s[j].0 != k,
    ensures
        s.filter(spec_key_is(k)) == Seq::<(i128, T)>::empty(),
    decreases s.len(),
{
    reveal(Seq::filter);
    if s.len() > 0 {
        lemma_filter_none(s.drop_last(), k);
    }
}

proof fn lemma_filter_all<T>(s: Seq<(i128, T)>, k: i128)
    requires
        forall|j: int| 0 <= j < s.len() ==> s[j].0 == k,
    ensures
        s.filter(spec_key_is(k)) == s,
    decreases s.len(),
{
    reveal(Seq::filter);
    if s.len() > 0 {
        lemma_filter_all(s.drop_last(), k);
        assert(s.drop_last().push(s.last()) =~= s);
    }
}

/// Inserting an item after every item of a key not above its own, and
/// before every item of a greater key, keeps a sorted sequence sorted and
/// puts the item last among those of its key.
proof fn lemma_insert_stable<T>(r: Seq<(i128, T)>, pos: int, x: (i128, T))
    requires
        spec_keys_sorted(r),
        0 <= pos <= r.len(),
        forall|j: int| 0 <= j < pos ==> r[j].0 <= x.0,
        forall|j: int| pos <= j < r.len() ==> r[j].0 > x.0,
    ensures
        spec_keys_sorted(r.insert(pos, x)),
        forall|k: i128| #[trigger] r.insert(pos, x).filter(spec_key_is(k)) == if k == x.0 {
            r.filter(spec_key_is(k)).push(x)
        } else {
            r.filter(spec_key_is(k))
        },
{
    let a = r.take(pos);
    let b = r.skip(pos);
    assert(r.insert(pos, x) =~= a + seq![x] + b);
    assert(r =~= a + b);
    assert forall|k: i128| #[trigger] r.insert(pos, x).filter(spec_key_is(k)) == if k == x.0 {
        r.filter(spec_key_is(k)).push(x)
    } else {
        r.filter(spec_key_is(k))
    } by {
        let p = spec_key_is::<T>(k);
        Seq::filter_distributes_over_add(a + seq![x], b, p);
        Seq::filter_distributes_over_add(a, seq![x], p);
        Seq::filter_distributes_over_add(a, b, p);
        reveal_with_fuel(Seq::filter, 2);
        assert(seq![x].drop_last() =~= Seq::<(i128, T)>::empty());
        if k == x.0 {
            lemma_filter_none(b, k);
            assert(a.filter(p) + seq![x] + Seq::<(i128, T)>::empty() =~= (a.filter(p) + Seq::<
                (i128, T),
            >::empty()).push(x));
        } else {
            assert(a.filter(p) + Seq::<(i128, T)>::empty() + b.filter(p) =~= a.filter(p) + b.filter(
                p,
            ));
        }
    }
}

/// The items sorted by key, stably (like std's `sort_by_key`).
pub fn stable_sort_by_key<T>(items: Vec<(i128, T)>) -> (r: Vec<(i128, T)>)
    ensures
        spec_stably_sorted(r@, items@),
{
    let ghost orig = items@;
    let mut rest = items;
    let mut r: Vec<(i128, T)> = Vec::new();
    let ghost mut done: int = 0;
    while rest.len() > 0
        invariant
            0 <= done <= orig.len(),
            rest@ == orig.skip(done),
            spec_keys_sorted(r@),
            forall|k: i128| #[trigger] r@.filter(spec_key_is(k)) == orig.take(done).filter(
                spec_key_is(k),
            ),
        decreases rest.len(),
    {
        let x = rest.remove(0);
        proof {
            assert(x == orig[done]);
            assert(orig.take(done + 1) =~= orig.take(done).push(x));
            assert(rest@ =~= orig.skip(done + 1));
        }
        let mut pos: usize = 0;
        while pos < r.len() && r[pos].0 <= x.0
            invariant
                pos <= r.len(),
                forall|j: int| 0 <= j < pos ==> r@[j].0 <= x.0,
            decreases r.len() - pos,
        {
            pos = pos + 1;
        }
        proof {
            assert forall|j: int| pos <= j < r@.len() implies r@[j].0 > x.0 by {
                if r@[pos as int].0 <= x.0 {
                } else {
                    assert(r@[pos as int].0 <= r@[j].0);
                }
            }
            lemma_insert_stable(r@, pos as int, x);
            assert forall|k: i128| #[trigger] r@.insert(pos as int, x).filter(spec_key_is(k))
                == orig.take(done + 1).filter(spec_key_is(k)) by {
                orig.take(done).lemma_filter_push(x, spec_key_is(k));
            }
        }
        r.insert(pos, x);
        proof {
            done = done + 1;
        }
    }
    proof {
        assert(orig.take(done) =~= orig);
    }
    r
}

/// Every item of the sorted sequence is an item of the input.
proof fn lemma_sorted_items_from<T>(r: Seq<(i128, T)>, s: Seq<(i128, T)>, j: int)
    requires
        spec_stably_sorted(r, s),
        0 <= j < r.len(),
    ensures
        s.contains(r[j]),
{
    let p = spec_key_is::<T>(r[j].0);
    r.lemma_filter_contains(p, j);
    assert(r.filter(p) == s.filter(p));
    s.lemma_filter_contains_rev(p, r[j]);
}

/// The items without their keys.
pub open spec fn spec_items<T>(s: Seq<(i128, T)>) -> Seq<T> {
    s.map_values(|e: (i128, T)| e.1)
}

/// Filtering by key and then dropping the keys is dropping the keys and
/// then filtering by a property of the items that matches the key.
proof fn lemma_items_filter<T>(s: Seq<(i128, T)>, k: i128, q: spec_fn(T) -> bool)
    requires
        forall|j: int| 0 <= j < s.len() ==> ((s[j].0 == k) == q(s[j].1)),
    ensures
        spec_items(s).filter(q) == spec_items(s.filter(spec_key_is(k))),
    decreases s.len(),
{
    reveal(Seq::filter);
    if s.len() > 0 {
        lemma_items_filter(s.drop_last(), k, q);
        assert(spec_items(s).drop_last() =~= spec_items(s.drop_last()));
        assert(spec_items(s.drop_last().filter(spec_key_is(k)).push(s.last())) =~= spec_items(
            s.drop_last().filter(spec_key_is(k)),
        ).push(s.last().1));
    }
}

fn strip_keys<T>(v: Vec<(i128, T)>) -> (r: Vec<T>)
    ensures
        r@ == spec_items(v@),
{
    let ghost orig = v@;
    let mut rest = v;
    let mut r: Vec<T> = Vec::new();
    let ghost mut done: int = 0;
    while rest.len() > 0
        invariant
            0 <= done <= orig.len(),
            rest@ == orig.skip(done),
            r@ == spec_items(orig.take(done)),
        decreases rest.len(),
    {
        let x = rest.remove(0);
        proof {
            assert(x == orig[done]);
            assert(rest@ =~= orig.skip(done + 1));
            assert(spec_items(orig.take(done + 1)) =~= spec_items(orig.take(done)).push(x.1));
        }
        r.push(x.1);
        proof {
            done = done + 1;
        }
    }
    proof {
        assert(orig.take(done) =~= orig);
    }
    r
}

// ---------------------------------------------------------------------------
// Tasks
// ---------------------------------------------------------------------------

/// A macro that was started: its process, its name, and when it was started
/// (seconds since the Unix epoch).
#[derive(Debug, PartialEq, Eq)]
pub struct TaskEntry {
    pub pid: MacroPID,
    pub name: String,
    pub creation_time: i64,
}

impl Clone for TaskEntry {
    fn clone(&self) -> (r: Self)
        ensures
            r == *self,
    {
        TaskEntry { pid: self.pid, name: self.name.clone(), creation_time: self.creation_time }
    }
}

/// A macro that ended, and how.
#[derive(Debug, PartialEq, Eq)]
pub struct HistoryEntry {
    pub task: TaskEntry,
    pub exit_status: ExitStatus,
}

/// When a macro ended.
pub open spec fn spec_exit_time(e: ExitStatus) -> i64 {
    match e {
        ExitStatus::Success { time } => time,
        ExitStatus::Killed { time } => time,
        ExitStatus::Error { time, .. } => time,
    }
}

/// Whether a task was started at time `t`.
pub open spec fn spec_started_at(t: i64) -> spec_fn(TaskEntry) -> bool {
    |e: TaskEntry| e.creation_time == t
}

/// Whether a macro ended at time `t`.
pub open spec fn spec_ended_at(t: i64) -> spec_fn(HistoryEntry) -> bool {
    |h: HistoryEntry| spec_exit_time(h.exit_status) == t
}

/// The tasks that are still running, of the tasks in the order they were
/// started, each with whether it still runs.
pub open spec fn spec_running(tasks: Seq<(TaskEntry, bool)>) -> Seq<TaskEntry> {
    tasks.filter(spec_still_runs()).map_values(|e: (TaskEntry, bool)| e.0)
}

pub open spec fn spec_still_runs() -> spec_fn((TaskEntry, bool)) -> bool {
    |e: (TaskEntry, bool)| e.1
}

pub open spec fn spec_has_ended() -> spec_fn((TaskEntry, Option<ExitStatus>)) -> bool {
    |e: (TaskEntry, Option<ExitStatus>)| e.1 is Some
}

/// The macros that ended, of the tasks in the order they were started, each
/// with how it ended if it did.
pub open spec fn spec_ended(tasks: Seq<(TaskEntry, Option<ExitStatus>)>) -> Seq<HistoryEntry> {
    tasks.filter(spec_has_ended()).map_values(
        |e: (TaskEntry, Option<ExitStatus>)| HistoryEntry { task: e.0, exit_status: e.1->0 },
    )
}

/// The tasks still running, oldest first; tasks started in the same second
/// keep the order they were started in.
pub fn task_list(tasks: Vec<(TaskEntry, bool)>) -> (r: Vec<TaskEntry>)
    ensures
        forall|i: int, j: int|
            0 <= i < j < r@.len() ==> r@[i].creation_time <= r@[j].creation_time,
        forall|t: i64| #[trigger] r@.filter(spec_started_at(t)) == spec_running(tasks@).filter(
            spec_started_at(t),
        ),
{
    let ghost orig = tasks@;
    let mut rest = tasks;
    let mut keyed: Vec<(i128, TaskEntry)> = Vec::new();
    let ghost mut done: int = 0;
    while rest.len() > 0
        invariant
            0 <= done <= orig.len(),
            rest@ == orig.skip(done),
            spec_items(keyed@) == spec_running(orig.take(done)),
            forall|j: int| 0 <= j < keyed@.len() ==> keyed@[j].0 == keyed@[j].1.creation_time,
        decreases rest.len(),
    {
        let x = rest.remove(0);
        proof {
            assert(x == orig[done]);
            assert(rest@ =~= orig.skip(done + 1));
            assert(orig.take(done + 1) =~= orig.take(done).push(x));
            orig.take(done).lemma_filter_push(x, spec_still_runs());
        }
        if x.1 {
            let key = x.0.creation_time as i128;
            let ghost old_keyed = keyed@;
            let ghost xt = x.0;
            keyed.push((key, x.0));
            proof {
                assert(spec_items(keyed@) =~= spec_items(old_keyed).push(xt));
                assert(orig.take(done + 1).filter(spec_still_runs()) == orig.take(done).filter(
                    spec_still_runs(),
                ).push(x));
                assert(spec_running(orig.take(done + 1)) =~= spec_running(orig.take(done)).push(
                    xt,
                ));
            }
        } else {
            proof {
                assert(spec_items(keyed@) =~= spec_running(orig.take(done + 1)));
            }
        }
        proof {
            done = done + 1;
        }
    }
    proof {
        assert(orig.take(done) =~= orig);
    }
    let ghost before = keyed@;
    let sorted = stable_sort_by_key(keyed);
    proof {
        assert forall|j: int| 0 <= j < sorted@.len() implies sorted@[j].0
            == sorted@[j].1.creation_time by {
            lemma_sorted_items_from(sorted@, before, j);
        }
        assert forall|t: i64| #[trigger] spec_items(sorted@).filter(spec_started_at(t))
            == spec_running(orig).filter(spec_started_at(t)) by {
            lemma_items_filter(sorted@, t as i128, spec_started_at(t));
            lemma_items_filter(before, t as i128, spec_started_at(t));
        }
    }
    strip_keys(sorted)
}

impl ExitStatus {
    /// When the macro ended.
    pub fn time(&self) -> (t: i64)
        ensures
            t == spec_exit_time(*self),
    {
        match self {
            ExitStatus::Success { time } => *time,
            ExitStatus::Killed { time } => *time,
            ExitStatus::Error { time, .. } => *time,
        }
    }
}

/// The macros that ended, the most recently ended first; macros that ended
/// in the same second keep the order they were started in.
pub fn history_list(tasks: Vec<(TaskEntry, Option<ExitStatus>)>) -> (r: Vec<HistoryEntry>)
    ensures
        forall|i: int, j: int|
            0 <= i < j < r@.len() ==> spec_exit_time(r@[i].exit_status) >= spec_exit_time(
                r@[j].exit_status,
            ),
        forall|t: i64| #[trigger] r@.filter(spec_ended_at(t)) == spec_ended(tasks@).filter(
            spec_ended_at(t),
        ),
{
    let ghost orig = tasks@;
    let mut rest = tasks;
    let mut keyed: Vec<(i128, HistoryEntry)> = Vec::new();
    let ghost mut done: int = 0;
    while rest.len() > 0
        invariant
            0 <= done <= orig.len(),
            rest@ == orig.skip(done),
            spec_items(keyed@) == spec_ended(orig.take(done)),
            forall|j: int|
                0 <= j < keyed@.len() ==> keyed@[j].0 == -spec_exit_time(keyed@[j].1.exit_status),
        decreases rest.len(),
    {
        let x = rest.remove(0);
        proof {
            assert(x == orig[done]);
            assert(rest@ =~= orig.skip(done + 1));
            assert(orig.take(done + 1) =~= orig.take(done).push(x));
            orig.take(done).lemma_filter_push(x, spec_has_ended());
        }
        let (task, status) = x;
        match status {
            Some(exit_status) => {
                let key = -(exit_status.time() as i128);
                let ghost old_keyed = keyed@;
                let ghost h = HistoryEntry { task, exit_status };
                keyed.push((key, HistoryEntry { task, exit_status }));
                proof {
                    assert(spec_items(keyed@) =~= spec_items(old_keyed).push(h));
                    assert(orig.take(done + 1).filter(spec_has_ended()) == orig.take(done).filter(
                        spec_has_ended(),
                    ).push(x));
                    assert(spec_ended(orig.take(done + 1)) =~= spec_ended(orig.take(done)).push(h));
                }
            },
            None => {
                proof {
                    assert(spec_items(keyed@) =~= spec_ended(orig.take(done + 1)));
                }
            },
        }
        proof {
            done = done + 1;
        }
    }
    proof {
        assert(orig.take(done) =~= orig);
    }
    let ghost before = keyed@;
    let sorted = stable_sort_by_key(keyed);
    proof {
        assert forall|j: int| 0 <= j < sorted@.len() implies sorted@[j].0 == -spec_exit_time(
            sorted@[j].1.exit_status,
        ) by {
            lemma_sorted_items_from(sorted@, before, j);
        }
        assert forall|t: i64| #[trigger] spec_items(sorted@).filter(spec_ended_at(t))
            == spec_ended(orig).filter(spec_ended_at(t)) by {
            lemma_items_filter(sorted@, (-(t as i128)) as i128, spec_ended_at(t));
            lemma_items_filter(before, (-(t as i128)) as i128, spec_ended_at(t));
        }
    }
    strip_keys(sorted)
}

} // verus!
