//! Local file-system events and their grouping by first-level kind, which
//! decides how the sync engine processes them.

use vstd::prelude::*;

verus! {

#[derive(Debug, Clone, Copy, PartialEq, Eq, Structural)]
pub enum AccessKind {
    Any,
    Read,
    Open,
    Close,
    Other,
}

#[derive(Debug, Clone, Copy, PartialEq, Eq, Structural)]
pub enum CreateKind {
    Any,
    File,
    Folder,
    Other,
}

#[derive(Debug, Clone, Copy, PartialEq, Eq, Structural)]
pub enum RenameMode {
    Any,
    To,
    From,
    Both,
    Other,
}

#[derive(Debug, Clone, Copy, PartialEq, Eq, Structural)]
pub enum ModifyKind {
    Any,
    Data,
    Metadata,
    Name(RenameMode),
    Other,
}

#[derive(Debug, Clone, Copy, PartialEq, Eq, Structural)]
pub enum RemoveKind {
    Any,
    File,
    Folder,
    Other,
}

/// Kind of a file-system event.
#[derive(Debug, Clone, Copy, PartialEq, Eq, Structural)]
pub enum EventKind {
    Any,
    Access(AccessKind),
    Create(CreateKind),
    Modify(ModifyKind),
    Remove(RemoveKind),
    Other,
}

/// A file-system event: its kind and the paths it concerns (two for a rename
/// that reports both ends).
#[derive(Debug)]
pub struct FsEvent {
    pub kind: EventKind,
    pub paths: Vec<String>,
}

/// The first-level kind of an event: every nested kind collapses to its
/// `Any` variant, except a rename reporting both ends, which stays distinct.
pub open spec fn normalized_kind(kind: EventKind) -> EventKind {
    match kind {
        EventKind::Any => EventKind::Any,
        EventKind::Access(_) => EventKind::Access(AccessKind::Any),
        EventKind::Create(_) => EventKind::Create(CreateKind::Any),
        EventKind::Modify(m) => match m {
            ModifyKind::Name(RenameMode::Both) => EventKind::Modify(ModifyKind::Name(RenameMode::Both)),
            _ => EventKind::Modify(ModifyKind::Any),
        },
        EventKind::Remove(_) => EventKind::Remove(RemoveKind::Any),
        EventKind::Other => EventKind::Other,
    }
}

/// Normalizes a kind to its first level (see [`normalized_kind`]).
pub fn normalize_event_kind(kind: &EventKind) -> (r: EventKind)
    ensures
        r == normalized_kind(*kind),
{
    match kind {
        EventKind::Any => EventKind::Any,
        EventKind::Access(_) => EventKind::Access(AccessKind::Any),
        EventKind::Create(_) => EventKind::Create(CreateKind::Any),
        EventKind::Modify(modify_kind) => match modify_kind {
            ModifyKind::Name(rename_mode) => match rename_mode {
                RenameMode::Both => EventKind::Modify(ModifyKind::Name(RenameMode::Both)),
                _ => EventKind::Modify(ModifyKind::Any),
            },
            _ => EventKind::Modify(ModifyKind::Any),
        },
        EventKind::Remove(_) => EventKind::Remove(RemoveKind::Any),
        EventKind::Other => EventKind::Other,
    }
}

/// Normalizing twice changes nothing.
pub proof fn lemma_normalize_idempotent(kind: EventKind)
    ensures
        normalized_kind(normalized_kind(kind)) == normalized_kind(kind),
{
}

/// Normalizing keeps an event's first-level kind: accesses stay accesses,
/// creations creations, modifications modifications and removals removals,
/// each collapsed to its `Any` form (a rename reporting both ends stays
/// distinct).
pub proof fn lemma_normalize_keeps_first_level(kind: EventKind)
    ensures
        kind is Access ==> normalized_kind(kind) == EventKind::Access(AccessKind::Any),
        kind is Create ==> normalized_kind(kind) == EventKind::Create(CreateKind::Any),
        kind is Remove ==> normalized_kind(kind) == EventKind::Remove(RemoveKind::Any),
        kind is Modify ==> normalized_kind(kind) is Modify,
        kind is Modify && kind != EventKind::Modify(ModifyKind::Name(RenameMode::Both)) ==> normalized_kind(kind)
            == EventKind::Modify(ModifyKind::Any),
        kind == EventKind::Modify(ModifyKind::Name(RenameMode::Both)) ==> normalized_kind(kind) == kind,
        kind is Any ==> normalized_kind(kind) == EventKind::Any,
        kind is Other ==> normalized_kind(kind) == EventKind::Other,
{
}

/// The events of `evs` whose normalized kind is `k`, in order.
pub open spec fn bucket(evs: Seq<FsEvent>, k: EventKind) -> Seq<FsEvent>
    decreases evs.len(),
{
    if evs.len() == 0 {
        Seq::empty()
    } else if normalized_kind(evs.last().kind) == k {
        bucket(evs.drop_last(), k).push(evs.last())
    } else {
        bucket(evs.drop_last(), k)
    }
}

/// Events grouped by normalized kind.
pub struct GroupedFsEvents {
    pub kinds: Vec<EventKind>,
    pub buckets: Vec<Vec<FsEvent>>,
}

/// `g` groups exactly the events `evs`: one group per normalized kind that
/// occurs, each holding that kind's events in order.
pub open spec fn groups_exactly(kinds: Seq<EventKind>, buckets: Seq<Vec<FsEvent>>, evs: Seq<FsEvent>) -> bool {
    &&& kinds.len() == buckets.len()
    &&& forall|i: int, j: int| 0 <= i < j < kinds.len() ==> kinds[i] != kinds[j]
    &&& forall|i: int| 0 <= i < kinds.len() ==> (#[trigger] buckets[i])@ == bucket(evs, kinds[i])
    &&& forall|i: int| 0 <= i < kinds.len() ==> bucket(evs, #[trigger] kinds[i]).len() > 0
    &&& forall|e: int| 0 <= e < evs.len() ==> kinds.contains(normalized_kind(#[trigger] evs[e].kind))
}

proof fn lemma_bucket_push(evs: Seq<FsEvent>, x: FsEvent, k: EventKind)
    ensures
        bucket(evs.push(x), k) == if normalized_kind(x.kind) == k {
            bucket(evs, k).push(x)
        } else {
            bucket(evs, k)
        },
{
    assert(evs.push(x).drop_last() =~= evs);
}

proof fn lemma_bucket_empty_if_absent(evs: Seq<FsEvent>, k: EventKind)
    requires
        forall|e: int| 0 <= e < evs.len() ==> normalized_kind(#[trigger] evs[e].kind) != k,
    ensures
        bucket(evs, k).len() == 0,
    decreases evs.len(),
{
    if evs.len() > 0 {
        assert(evs.drop_last().len() == evs.len() - 1);
        assert forall|e: int| 0 <= e < evs.drop_last().len() implies normalized_kind(
            #[trigger] evs.drop_last()[e].kind,
        ) != k by {
            assert(evs.drop_last()[e] == evs[e]);
        }
        lemma_bucket_empty_if_absent(evs.drop_last(), k);
        assert(normalized_kind(evs[evs.len() - 1].kind) != k);
    }
}

impl GroupedFsEvents {
    /// Number of groups.
    pub fn len(&self) -> (r: usize)
        ensures
            r == self.kinds@.len(),
    {
        self.kinds.len()
    }

    /// The events of one normalized kind, if any occurred.
    pub fn get(&self, kind: &EventKind) -> (r: Option<&Vec<FsEvent>>)
        requires
            self.kinds@.len() == self.buckets@.len(),
        ensures
            match r {
                Some(b) => exists|i: int| 0 <= i < self.kinds@.len() && self.kinds@[i] == *kind && *b == self.buckets@[i],
                None => !self.kinds@.contains(*kind),
            },
    {
        let mut i: usize = 0;
        while i < self.kinds.len()
            invariant
                i <= self.kinds@.len(),
                self.kinds@.len() == self.buckets@.len(),
                forall|j: int| 0 <= j < i ==> self.kinds@[j] != *kind,
            decreases self.kinds.len() - i,
        {
            if self.kinds[i] == *kind {
                return Some(&self.buckets[i]);
            }
            i = i + 1;
        }
        None
    }
}

fn position_of_kind(kinds: &Vec<EventKind>, k: &EventKind) -> (r: Option<usize>)
    ensures
        match r {
            Some(j) => j < kinds@.len() && kinds@[j as int] == *k,
            None => !kinds@.contains(*k),
        },
{
    let mut j: usize = 0;
    while j < kinds.len()
        invariant
            j <= kinds@.len(),
            forall|m: int| 0 <= m < j ==> kinds@[m] != *k,
        decreases kinds.len() - j,
    {
        if kinds[j] == *k {
            return Some(j);
        }
        j = j + 1;
    }
    None
}

/// Groups events by their normalized kind (see [`normalized_kind`]),
/// keeping the order of events within each group.
pub fn group_fs_events(events: Vec<FsEvent>) -> (r: GroupedFsEvents)
    ensures
        groups_exactly(r.kinds@, r.buckets@, events@),
{
    let ghost all = events@;
    let mut events = events;
    let mut kinds: Vec<EventKind> = Vec::new();
    let mut buckets: Vec<Vec<FsEvent>> = Vec::new();
    let ghost mut done: Seq<FsEvent> = Seq::empty();
    while events.len() > 0
        invariant
            all == done + events@,
            groups_exactly(kinds@, buckets@, done),
        decreases events.len(),
    {
        let ev = events.remove(0);
        let k = normalize_event_kind(&ev.kind);
        let ghost old_kinds = kinds@;
        let ghost old_buckets = buckets@;
        let ghost new_done = done.push(ev);
        proof {
            assert forall|kk: EventKind| #![auto] true implies bucket(new_done, kk) == if normalized_kind(
                ev.kind,
            ) == kk {
                bucket(done, kk).push(ev)
            } else {
                bucket(done, kk)
            } by {
                lemma_bucket_push(done, ev, kk);
            }
        }
        let pos = position_of_kind(&kinds, &k);
        let found = pos.is_some();
        let j: usize = match pos {
            Some(p) => p,
            None => 0,
        };
        if found {
            let mut b = buckets.remove(j);
            b.push(ev);
            buckets.insert(j, b);
            proof {
                assert forall|i: int| 0 <= i < kinds@.len() implies (#[trigger] buckets@[i])@ == bucket(
                    new_done,
                    kinds@[i],
                ) by {
                    if i != j {
                        assert(buckets@[i] == old_buckets[i]);
                        assert(kinds@[i] != kinds@[j as int]);
                    }
                }
                assert forall|i: int| 0 <= i < kinds@.len() implies bucket(new_done, #[trigger] kinds@[i]).len()
                    > 0 by {
                    if kinds@[i] != k {
                        assert(bucket(new_done, kinds@[i]) == bucket(done, kinds@[i]));
                    }
                }
                assert forall|e: int| 0 <= e < new_done.len() implies kinds@.contains(
                    normalized_kind(#[trigger] new_done[e].kind),
                ) by {
                    if e < done.len() {
                        assert(new_done[e] == done[e]);
                    } else {
                        assert(kinds@[j as int] == k);
                    }
                }
            }
        } else {
            proof {
                assert(!old_kinds.contains(k));
                assert forall|e: int| 0 <= e < done.len() implies normalized_kind(#[trigger] done[e].kind) != k by {
                    assert(old_kinds.contains(normalized_kind(done[e].kind)));
                }
                lemma_bucket_empty_if_absent(done, k);
            }
            let mut b: Vec<FsEvent> = Vec::new();
            b.push(ev);
            kinds.push(k);
            buckets.push(b);
            proof {
                assert(bucket(done, k) =~= Seq::<FsEvent>::empty());
                assert forall|i: int| 0 <= i < kinds@.len() implies (#[trigger] buckets@[i])@ == bucket(
                    new_done,
                    kinds@[i],
                ) by {
                    if i < old_kinds.len() {
                        assert(buckets@[i] == old_buckets[i]);
                        assert(kinds@[i] != k);
                    } else {
                        assert(buckets@[i]@ =~= seq![ev]);
                        assert(bucket(done, k).push(ev) =~= seq![ev]);
                    }
                }
                assert forall|i: int| 0 <= i < kinds@.len() implies bucket(new_done, #[trigger] kinds@[i]).len()
                    > 0 by {
                    if i < old_kinds.len() {
                        assert(kinds@[i] == old_kinds[i]);
                        assert(kinds@[i] != k);
                    }
                }
                assert forall|a: int, c: int| 0 <= a < c < kinds@.len() implies kinds@[a] != kinds@[c] by {
                    if c == old_kinds.len() {
                        assert(kinds@[a] == old_kinds[a]);
                        assert(old_kinds.contains(old_kinds[a]));
                    }
                }
                assert forall|e: int| 0 <= e < new_done.len() implies kinds@.contains(
                    normalized_kind(#[trigger] new_done[e].kind),
                ) by {
                    if e < done.len() {
                        assert(new_done[e] == done[e]);
                        let t = normalized_kind(done[e].kind);
                        assert(old_kinds.contains(t));
                        let ix = choose|ix: int| 0 <= ix < old_kinds.len() && old_kinds[ix] == t;
                        assert(kinds@[ix] == t);
                    } else {
                        assert(kinds@[kinds@.len() - 1] == k);
                    }
                }
            }
        }
        proof {
            done = new_done;
        }
    }
    assert(done =~= all);
    GroupedFsEvents { kinds, buckets }
}

} // verus!
