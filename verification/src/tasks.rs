//! The task list shown by the status window: finished tasks are listed once
//! per drive, path and kind, newest first.

use vstd::prelude::*;
use crate::text::str_eq;

verus! {

/// How many active and how many finished tasks the status window lists.
pub const RECENT_TASK_LIMIT: usize = 25;

/// How many finished tasks are read before repeats are dropped, so that
/// enough distinct ones remain.
pub const FINISHED_TASK_FETCH: usize = 200;

/// What identifies a task for the status window.
#[derive(Debug, Clone)]
pub struct TaskKey {
    pub drive_id: String,
    pub local_path: String,
    pub task_type: String,
}

pub open spec fn key_view(k: TaskKey) -> (Seq<char>, Seq<char>, Seq<char>) {
    (k.drive_id@, k.local_path@, k.task_type@)
}

pub open spec fn keys_view(v: Seq<TaskKey>) -> Seq<(Seq<char>, Seq<char>, Seq<char>)> {
    v.map_values(|k: TaskKey| key_view(k))
}

/// No earlier task has the same key.
pub open spec fn is_first(s: Seq<(Seq<char>, Seq<char>, Seq<char>)>, i: int) -> bool {
    forall|j: int| 0 <= j < i ==> s[j] != s[i]
}

/// The positions of the first task of each key, in order.
pub open spec fn first_occurrences(s: Seq<(Seq<char>, Seq<char>, Seq<char>)>) -> Seq<int>
    decreases s.len(),
{
    if s.len() == 0 {
        Seq::empty()
    } else {
        let rest = first_occurrences(s.drop_last());
        if is_first(s, s.len() - 1) {
            rest.push(s.len() - 1)
        } else {
            rest
        }
    }
}

pub open spec fn positions(v: Seq<usize>) -> Seq<int> {
    v.map_values(|i: usize| i as int)
}

fn same_key(a: &TaskKey, b: &TaskKey) -> (r: bool)
    ensures
        r == (key_view(*a) == key_view(*b)),
{
    str_eq(a.drive_id.as_str(), b.drive_id.as_str()) && str_eq(a.local_path.as_str(), b.local_path.as_str())
        && str_eq(a.task_type.as_str(), b.task_type.as_str())
}

proof fn lemma_is_first_prefix(s: Seq<(Seq<char>, Seq<char>, Seq<char>)>, n: int, i: int)
    requires
        0 <= i < n <= s.len(),
    ensures
        is_first(s.subrange(0, n), i) == is_first(s, i),
{
    let t = s.subrange(0, n);
    assert forall|j: int| 0 <= j < i implies t[j] == s[j] by {}
    assert(t[i] == s[i]);
}

/// The finished tasks to list, as positions in the list read newest first:
/// the first (newest) task of each drive, path and kind.
pub fn dedupe_finished_tasks_keep_newest_first(tasks: &Vec<TaskKey>) -> (r: Vec<usize>)
    ensures
        positions(r@) == first_occurrences(keys_view(tasks@)),
{
    let mut out: Vec<usize> = Vec::new();
    let mut i: usize = 0;
    while i < tasks.len()
        invariant
            i <= tasks@.len(),
            positions(out@) == first_occurrences(keys_view(tasks@).subrange(0, i as int)),
        decreases tasks.len() - i,
    {
        let ghost s = keys_view(tasks@);
        let ghost pre = s.subrange(0, i as int);
        let ghost post = s.subrange(0, i + 1);
        assert(post.drop_last() =~= pre);
        let mut first = true;
        let mut j: usize = 0;
        while j < i
            invariant
                j <= i,
                i < tasks@.len(),
                s == keys_view(tasks@),
                first == forall|k: int| 0 <= k < j ==> s[k] != s[i as int],
            decreases i - j,
        {
            assert(s[j as int] == key_view(tasks@[j as int]));
            assert(s[i as int] == key_view(tasks@[i as int]));
            if same_key(&tasks[j], &tasks[i]) {
                first = false;
            }
            j = j + 1;
        }
        proof {
            lemma_is_first_prefix(s, i + 1, i as int);
            assert(first == is_first(post, i as int));
        }
        let ghost before = out@;
        if first {
            out.push(i);
            assert(positions(out@) =~= positions(before).push(i as int));
        }
        assert(positions(out@) == first_occurrences(post));
        i = i + 1;
    }
    assert(keys_view(tasks@).subrange(0, tasks@.len() as int) =~= keys_view(tasks@));
    out
}

/// The finished tasks the status window lists: the deduplicated list, cut
/// to [`RECENT_TASK_LIMIT`].
pub fn recent_finished_positions(tasks: &Vec<TaskKey>) -> (r: Vec<usize>)
    ensures
        positions(r@) == {
            let all = first_occurrences(keys_view(tasks@));
            if all.len() > RECENT_TASK_LIMIT {
                all.subrange(0, RECENT_TASK_LIMIT as int)
            } else {
                all
            }
        },
{
    let all = dedupe_finished_tasks_keep_newest_first(tasks);
    if all.len() <= RECENT_TASK_LIMIT {
        return all;
    }
    let mut out: Vec<usize> = Vec::new();
    let mut i: usize = 0;
    while i < RECENT_TASK_LIMIT
        invariant
            i <= RECENT_TASK_LIMIT,
            all@.len() > RECENT_TASK_LIMIT,
            positions(out@) == positions(all@).subrange(0, i as int),
            out@.len() == i,
        decreases RECENT_TASK_LIMIT - i,
    {
        let ghost before = out@;
        out.push(all[i]);
        assert forall|k: int| 0 <= k < i + 1 implies positions(out@)[k] == positions(all@).subrange(0, i + 1)[k] by {
            if k < i {
                assert(out@[k] == before[k]);
                assert(positions(before)[k] == positions(all@).subrange(0, i as int)[k]);
            }
        }
        assert(positions(out@) =~= positions(all@).subrange(0, i + 1));
        i = i + 1;
    }
    out
}

/// Every kept position holds the first task of its key, and no key is
/// listed twice.
pub proof fn lemma_dedupe_keeps_first_of_each_key(s: Seq<(Seq<char>, Seq<char>, Seq<char>)>)
    ensures
        forall|k: int|
            0 <= k < first_occurrences(s).len() ==> 0 <= #[trigger] first_occurrences(s)[k] < s.len()
                && is_first(s, first_occurrences(s)[k]),
        forall|a: int, b: int|
            0 <= a < b < first_occurrences(s).len() ==> first_occurrences(s)[a] < first_occurrences(s)[b],
    decreases s.len(),
{
    if s.len() > 0 {
        let t = s.drop_last();
        lemma_dedupe_keeps_first_of_each_key(t);
        let rest = first_occurrences(t);
        assert forall|k: int| 0 <= k < rest.len() implies is_first(s, rest[k]) by {
            assert(is_first(t, rest[k]));
            assert forall|j: int| 0 <= j < rest[k] implies #[trigger] s[j] != s[rest[k]] by {
                assert(t[j] == s[j]);
                assert(t[rest[k]] == s[rest[k]]);
            }
        }
    }
}

/// Every key of the input is listed: its first task is kept.
pub proof fn lemma_dedupe_covers_every_key(s: Seq<(Seq<char>, Seq<char>, Seq<char>)>, i: int)
    requires
        0 <= i < s.len(),
    ensures
        exists|k: int|
            0 <= k < first_occurrences(s).len() && s[#[trigger] first_occurrences(s)[k]] == s[i],
    decreases s.len(),
{
    let t = s.drop_last();
    let n = s.len() - 1;
    if i < n {
        lemma_dedupe_covers_every_key(t, i);
        let k = choose|k: int| 0 <= k < first_occurrences(t).len() && t[#[trigger] first_occurrences(t)[k]] == t[i];
        lemma_dedupe_keeps_first_of_each_key(t);
        assert(s[first_occurrences(s)[k]] == s[i]);
    } else if is_first(s, n) {
        assert(first_occurrences(s)[first_occurrences(t).len() as int] == n);
    } else {
        let j = choose|j: int| 0 <= j < n && s[j] == s[n];
        lemma_dedupe_covers_every_key(t, j);
        let k = choose|k: int| 0 <= k < first_occurrences(t).len() && t[#[trigger] first_occurrences(t)[k]] == t[j];
        lemma_dedupe_keeps_first_of_each_key(t);
        assert(s[first_occurrences(s)[k]] == s[i]);
    }
}

} // verus!
