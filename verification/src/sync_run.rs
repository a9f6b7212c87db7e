//! Running a sync: how requested paths are grouped, how a group starts, the
//! fast path for remote deletions, the steps that carry out each planned
//! action, and the aggregation of the errors met on the way.

use vstd::prelude::*;
use crate::fs_events::{CreateKind, EventKind, ModifyKind};
use crate::paths::{path_parent, paths_equal, spec_path_eq, spec_path_parent};
use crate::platform::VirtualFileState;
use crate::remote::RemoteFileType;
use crate::sync_plan::{
    SyncAction, SyncActionView, SyncMode, WalkReason, WalkRequest, WalkRequestView, WalkTiming,
};
use crate::text::{decimal, push_decimal, push_str};

verus! {

/// The delete actions for paths the server reported as deleted: paths that
/// are already gone are dropped; a directory is only removed when empty.
pub open spec fn remote_delete_plan(entries: Seq<(Seq<char>, VirtualFileState)>) -> Seq<SyncActionView>
    decreases entries.len(),
{
    if entries.len() == 0 {
        Seq::empty()
    } else {
        let rest = remote_delete_plan(entries.drop_last());
        let (path, local) = entries.last();
        if local.exists {
            rest.push(
                SyncActionView::DeleteLocalAndInventory { path, skip_if_not_empty: local.is_directory },
            )
        } else {
            rest
        }
    }
}

pub open spec fn path_states_view(v: Seq<(String, VirtualFileState)>) -> Seq<(Seq<char>, VirtualFileState)> {
    v.map_values(|e: (String, VirtualFileState)| (e.0@, e.1))
}

pub open spec fn actions_view(v: Seq<SyncAction>) -> Seq<SyncActionView> {
    v.map_values(|a: SyncAction| a@)
}

/// The actions of the fast path for remote deletions, from each path and
/// its local state (paths whose state could not be read are left out by
/// the caller).
pub fn remote_delete_actions(entries: &Vec<(String, VirtualFileState)>) -> (r: Vec<SyncAction>)
    ensures
        actions_view(r@) == remote_delete_plan(path_states_view(entries@)),
{
    let mut out: Vec<SyncAction> = Vec::new();
    let mut i: usize = 0;
    while i < entries.len()
        invariant
            i <= entries@.len(),
            actions_view(out@) == remote_delete_plan(path_states_view(entries@.subrange(0, i as int))),
        decreases entries.len() - i,
    {
        let ghost pre = path_states_view(entries@.subrange(0, i as int));
        let ghost post = path_states_view(entries@.subrange(0, i + 1));
        assert(post.drop_last() =~= pre);
        let local = entries[i].1;
        if local.exists {
            let path = entries[i].0.clone();
            out.push(SyncAction::DeleteLocalAndInventory { path, skip_if_not_empty: local.is_directory });
            assert(actions_view(out@) =~= remote_delete_plan(post));
        } else {
            assert(actions_view(out@) =~= remote_delete_plan(post));
        }
        i = i + 1;
    }
    assert(entries@.subrange(0, entries@.len() as int) =~= entries@);
    out
}

/// A remote deletion never touches a path that is already gone, and never
/// removes a non-empty directory.
pub proof fn lemma_remote_delete_plan_is_safe(entries: Seq<(Seq<char>, VirtualFileState)>, i: int)
    requires
        0 <= i < remote_delete_plan(entries).len(),
    ensures
        exists|j: int|
            0 <= j < entries.len() && (#[trigger] entries[j]).1.exists && remote_delete_plan(entries)[i]
                == (SyncActionView::DeleteLocalAndInventory {
                path: entries[j].0,
                skip_if_not_empty: entries[j].1.is_directory,
            }),
    decreases entries.len(),
{
    let rest = remote_delete_plan(entries.drop_last());
    if i < rest.len() {
        lemma_remote_delete_plan_is_safe(entries.drop_last(), i);
        let j = choose|j: int|
            0 <= j < entries.drop_last().len() && (#[trigger] entries.drop_last()[j]).1.exists
                && rest[i] == (SyncActionView::DeleteLocalAndInventory {
                path: entries.drop_last()[j].0,
                skip_if_not_empty: entries.drop_last()[j].1.is_directory,
            });
        assert(entries[j] == entries.drop_last()[j]);
    } else {
        let j = entries.len() - 1;
        assert(entries[j] == entries.last());
    }
}

/// The walks of a plan with the given timing, in order.
pub open spec fn walks_timed(walks: Seq<WalkRequestView>, timing: WalkTiming) -> Seq<WalkRequestView>
    decreases walks.len(),
{
    if walks.len() == 0 {
        Seq::empty()
    } else {
        let rest = walks_timed(walks.drop_last(), timing);
        if walks.last().timing == timing {
            rest.push(walks.last())
        } else {
            rest
        }
    }
}

pub open spec fn walks_view(v: Seq<WalkRequest>) -> Seq<WalkRequestView> {
    v.map_values(|w: WalkRequest| w@)
}

/// Splits the planned walks into those run before the group's actions and
/// those run after them, keeping their order.
pub fn split_walks(walks: &Vec<WalkRequest>) -> (r: (Vec<WalkRequest>, Vec<WalkRequest>))
    ensures
        walks_view(r.0@) == walks_timed(walks_view(walks@), WalkTiming::Immediate),
        walks_view(r.1@) == walks_timed(walks_view(walks@), WalkTiming::Deferred),
{
    let mut immediate: Vec<WalkRequest> = Vec::new();
    let mut deferred: Vec<WalkRequest> = Vec::new();
    let mut i: usize = 0;
    while i < walks.len()
        invariant
            i <= walks@.len(),
            walks_view(immediate@) == walks_timed(walks_view(walks@.subrange(0, i as int)), WalkTiming::Immediate),
            walks_view(deferred@) == walks_timed(walks_view(walks@.subrange(0, i as int)), WalkTiming::Deferred),
        decreases walks.len() - i,
    {
        let ghost pre = walks_view(walks@.subrange(0, i as int));
        let ghost post = walks_view(walks@.subrange(0, i + 1));
        assert(post.drop_last() =~= pre);
        let w = &walks[i];
        let copy = WalkRequest { path: w.path.clone(), mode: w.mode, reason: w.reason, timing: w.timing };
        assert(copy@ == post.last());
        match w.timing {
            WalkTiming::Immediate => {
                immediate.push(copy);
            },
            WalkTiming::Deferred => {
                deferred.push(copy);
            },
        }
        assert(walks_view(immediate@) =~= walks_timed(post, WalkTiming::Immediate));
        assert(walks_view(deferred@) =~= walks_timed(post, WalkTiming::Deferred));
        i = i + 1;
    }
    assert(walks@.subrange(0, walks@.len() as int) =~= walks@);
    (immediate, deferred)
}

/// No walk is lost or duplicated by the split.
pub proof fn lemma_split_walks_partitions(walks: Seq<WalkRequestView>)
    ensures
        walks_timed(walks, WalkTiming::Immediate).len() + walks_timed(walks, WalkTiming::Deferred).len()
            == walks.len(),
    decreases walks.len(),
{
    if walks.len() > 0 {
        lemma_split_walks_partitions(walks.drop_last());
    }
}

/// How a group of paths starts its sync.
#[derive(Debug, Clone, Copy, PartialEq, Eq, Structural)]
pub enum GroupStart {
    /// The group is the sync root itself: walk its children directly.
    WalkSyncRoot,
    /// Remote metadata was handed over by the walk that found the paths.
    UsePrefetched,
    /// A remote-delete sync treats every remote entry as missing.
    SkipRemote,
    /// List the parent on the server.
    FetchRemote,
}

pub open spec fn group_start_spec(
    paths: Seq<Seq<char>>,
    sync_root: Seq<char>,
    mode: SyncMode,
    has_prefetched: bool,
) -> GroupStart {
    if paths.len() == 1 && spec_path_eq(paths[0], sync_root) {
        GroupStart::WalkSyncRoot
    } else if has_prefetched {
        GroupStart::UsePrefetched
    } else if mode == SyncMode::RemoteDelete {
        GroupStart::SkipRemote
    } else {
        GroupStart::FetchRemote
    }
}

pub open spec fn strings_view(v: Seq<String>) -> Seq<Seq<char>> {
    v.map_values(|s: String| s@)
}

/// The texts of a vector after a push.
pub proof fn lemma_strings_view_push(v: Seq<String>, x: String)
    ensures
        strings_view(v.push(x)) == strings_view(v).push(x@),
{
    assert forall|k: int| 0 <= k < v.len() + 1 implies strings_view(v.push(x))[k] == strings_view(v).push(
        x@,
    )[k] by {
        if k < v.len() {
            assert(v.push(x)[k] == v[k]);
        }
    }
    assert(strings_view(v.push(x)) =~= strings_view(v).push(x@));
}

pub fn sync_group_start(paths: &Vec<String>, sync_root: &str, mode: SyncMode, has_prefetched: bool) -> (r:
    GroupStart)
    ensures
        r == group_start_spec(strings_view(paths@), sync_root@, mode, has_prefetched),
{
    if paths.len() == 1 && paths_equal(paths[0].as_str(), sync_root) {
        GroupStart::WalkSyncRoot
    } else if has_prefetched {
        GroupStart::UsePrefetched
    } else if mode == SyncMode::RemoteDelete {
        GroupStart::SkipRemote
    } else {
        GroupStart::FetchRemote
    }
}

/// The walk that syncs the sync root's children.
pub fn sync_root_walk(sync_root: &str, mode: SyncMode) -> (r: WalkRequest)
    ensures
        r@ == (WalkRequestView {
            path: sync_root@,
            mode,
            reason: WalkReason::ModePropagation,
            timing: WalkTiming::Immediate,
        }),
{
    WalkRequest {
        path: sync_root.to_owned(),
        mode,
        reason: WalkReason::ModePropagation,
        timing: WalkTiming::Immediate,
    }
}

/// How many of the events that materialising a remote entry causes are
/// suppressed: creates (two with plain files, which are created and then
/// written), and for files also modifications (three with plain files).
pub open spec fn blockers_spec(real_file_mode: bool, is_directory: bool) -> Seq<(EventKind, u32)> {
    let creates = seq![(EventKind::Create(CreateKind::Any), if real_file_mode { 2u32 } else { 1u32 })];
    if is_directory {
        creates
    } else {
        creates.push((EventKind::Modify(ModifyKind::Any), if real_file_mode { 3u32 } else { 1u32 }))
    }
}

pub fn materialization_blockers(real_file_mode: bool, is_directory: bool) -> (r: Vec<(EventKind, u32)>)
    ensures
        r@ == blockers_spec(real_file_mode, is_directory),
{
    let mut out = Vec::new();
    out.push((EventKind::Create(CreateKind::Any), if real_file_mode { 2u32 } else { 1u32 }));
    if !is_directory {
        out.push((EventKind::Modify(ModifyKind::Any), if real_file_mode { 3u32 } else { 1u32 }));
    }
    assert(out@ =~= blockers_spec(real_file_mode, is_directory));
    out
}

/// One step of carrying out a planned action, on the action's path.
#[derive(Debug, Clone, Copy, PartialEq, Eq, Structural)]
pub enum ActionStep {
    /// Suppress this many create events.
    BlockCreateEvents { count: u32 },
    /// Suppress this many modify events.
    BlockModifyEvents { count: u32 },
    /// Write the placeholder and inventory entry from the remote entry; a
    /// failure ends the action.
    CommitRemote { invalidate_all: bool },
    /// Cancel the queued and running tasks of the path.
    CancelTasks,
    /// Queue a download of the content.
    EnqueueDownload,
    /// Queue an upload.
    EnqueueUpload,
    /// End the action when the directory has entries.
    StopIfDirectoryNotEmpty,
    /// End the action when the path does not exist.
    StopIfMissing,
    /// Remove the local item and its inventory entry.
    DeleteLocalAndInventory,
    /// Suppress the remove event the deletion causes.
    BlockRemoveEvent,
    /// Move the local item to the conflict name.
    RenameLocal,
}

pub open spec fn blocker_steps(real_file_mode: bool, is_directory: bool) -> Seq<ActionStep> {
    let creates = seq![ActionStep::BlockCreateEvents { count: if real_file_mode { 2u32 } else { 1u32 } }];
    if is_directory {
        creates
    } else {
        creates.push(ActionStep::BlockModifyEvents { count: if real_file_mode { 3u32 } else { 1u32 } })
    }
}

/// With plain files, a remote file with content is downloaded right after
/// its entry is written.
pub open spec fn download_after_commit(real_file_mode: bool, file_type: RemoteFileType, size: i64) -> Seq<
    ActionStep,
> {
    if real_file_mode && file_type != RemoteFileType::Folder && size > 0 {
        seq![ActionStep::CancelTasks, ActionStep::EnqueueDownload]
    } else {
        Seq::empty()
    }
}

pub open spec fn action_steps_spec(action: SyncActionView, real_file_mode: bool) -> Seq<ActionStep> {
    match action {
        SyncActionView::CreatePlaceholderAndInventory { path, remote } => blocker_steps(
            real_file_mode,
            remote.file_type == RemoteFileType::Folder,
        ).push(ActionStep::CommitRemote { invalidate_all: false }) + download_after_commit(
            real_file_mode,
            remote.file_type,
            remote.size,
        ),
        SyncActionView::UpdateInventoryFromRemote { path, remote, invalidate_all } => blocker_steps(
            real_file_mode,
            remote.file_type == RemoteFileType::Folder,
        ).push(ActionStep::CommitRemote { invalidate_all }) + download_after_commit(
            real_file_mode,
            remote.file_type,
            remote.size,
        ),
        SyncActionView::QueueUpload { .. } => seq![ActionStep::EnqueueUpload],
        SyncActionView::QueueDownload { .. } => blocker_steps(real_file_mode, false) + seq![
            ActionStep::CancelTasks,
            ActionStep::EnqueueDownload,
        ],
        SyncActionView::DeleteLocalAndInventory { skip_if_not_empty, .. } => if skip_if_not_empty {
            seq![
                ActionStep::StopIfDirectoryNotEmpty,
                ActionStep::DeleteLocalAndInventory,
                ActionStep::BlockRemoveEvent,
            ]
        } else {
            seq![ActionStep::DeleteLocalAndInventory, ActionStep::BlockRemoveEvent]
        },
        SyncActionView::CreateRemoteFolderIfExist { .. } => seq![
            ActionStep::StopIfMissing,
            ActionStep::EnqueueUpload,
        ],
        SyncActionView::RenameLocalWithConflict { .. } => seq![
            ActionStep::CancelTasks,
            ActionStep::RenameLocal,
        ],
    }
}

fn push_blockers(out: &mut Vec<ActionStep>, real_file_mode: bool, is_directory: bool)
    ensures
        final(out)@ == old(out)@ + blocker_steps(real_file_mode, is_directory),
{
    out.push(ActionStep::BlockCreateEvents { count: if real_file_mode { 2u32 } else { 1u32 } });
    if !is_directory {
        out.push(ActionStep::BlockModifyEvents { count: if real_file_mode { 3u32 } else { 1u32 } });
    }
    assert(final(out)@ =~= old(out)@ + blocker_steps(real_file_mode, is_directory));
}

fn push_download(out: &mut Vec<ActionStep>, real_file_mode: bool, file_type: RemoteFileType, size: i64)
    ensures
        final(out)@ == old(out)@ + download_after_commit(real_file_mode, file_type, size),
{
    if real_file_mode && file_type != RemoteFileType::Folder && size > 0 {
        out.push(ActionStep::CancelTasks);
        out.push(ActionStep::EnqueueDownload);
    }
    assert(final(out)@ =~= old(out)@ + download_after_commit(real_file_mode, file_type, size));
}

/// The steps that carry out one planned action.
pub fn action_steps(action: &SyncAction, real_file_mode: bool) -> (r: Vec<ActionStep>)
    ensures
        r@ == action_steps_spec(action@, real_file_mode),
{
    let mut out: Vec<ActionStep> = Vec::new();
    match action {
        SyncAction::CreatePlaceholderAndInventory { remote, .. } => {
            push_blockers(&mut out, real_file_mode, remote.file_type == RemoteFileType::Folder);
            out.push(ActionStep::CommitRemote { invalidate_all: false });
            push_download(&mut out, real_file_mode, remote.file_type, remote.size);
        },
        SyncAction::UpdateInventoryFromRemote { remote, invalidate_all, .. } => {
            push_blockers(&mut out, real_file_mode, remote.file_type == RemoteFileType::Folder);
            out.push(ActionStep::CommitRemote { invalidate_all: *invalidate_all });
            push_download(&mut out, real_file_mode, remote.file_type, remote.size);
        },
        SyncAction::QueueUpload { .. } => {
            out.push(ActionStep::EnqueueUpload);
        },
        SyncAction::QueueDownload { .. } => {
            push_blockers(&mut out, real_file_mode, false);
            out.push(ActionStep::CancelTasks);
            out.push(ActionStep::EnqueueDownload);
        },
        SyncAction::DeleteLocalAndInventory { skip_if_not_empty, .. } => {
            if *skip_if_not_empty {
                out.push(ActionStep::StopIfDirectoryNotEmpty);
            }
            out.push(ActionStep::DeleteLocalAndInventory);
            out.push(ActionStep::BlockRemoveEvent);
        },
        SyncAction::CreateRemoteFolderIfExist { .. } => {
            out.push(ActionStep::StopIfMissing);
            out.push(ActionStep::EnqueueUpload);
        },
        SyncAction::RenameLocalWithConflict { .. } => {
            out.push(ActionStep::CancelTasks);
            out.push(ActionStep::RenameLocal);
        },
    }
    assert(out@ =~= action_steps_spec(action@, real_file_mode));
    out
}

/// Every download is queued right after the path's other tasks were
/// cancelled, and every write of a remote entry comes after the events it
/// causes were suppressed.
pub proof fn lemma_action_steps_ordering(action: SyncActionView, real_file_mode: bool, i: int)
    requires
        0 <= i < action_steps_spec(action, real_file_mode).len(),
    ensures
        action_steps_spec(action, real_file_mode)[i] == ActionStep::EnqueueDownload ==> i > 0
            && action_steps_spec(action, real_file_mode)[i - 1] == ActionStep::CancelTasks,
        action_steps_spec(action, real_file_mode)[i] is CommitRemote ==> i > 0
            && action_steps_spec(action, real_file_mode)[0] is BlockCreateEvents,
{
    let steps = action_steps_spec(action, real_file_mode);
    match action {
        SyncActionView::CreatePlaceholderAndInventory { path, remote } => {
            let b = blocker_steps(real_file_mode, remote.file_type == RemoteFileType::Folder);
            let d = download_after_commit(real_file_mode, remote.file_type, remote.size);
            assert(steps == b.push(ActionStep::CommitRemote { invalidate_all: false }) + d);
            if i > b.len() {
                assert(steps[i] == d[i - b.len() - 1]);
                assert(steps[i - 1] == if i - 1 == b.len() {
                    ActionStep::CommitRemote { invalidate_all: false }
                } else {
                    d[i - b.len() - 2]
                });
            }
        },
        SyncActionView::UpdateInventoryFromRemote { path, remote, invalidate_all } => {
            let b = blocker_steps(real_file_mode, remote.file_type == RemoteFileType::Folder);
            let d = download_after_commit(real_file_mode, remote.file_type, remote.size);
            assert(steps == b.push(ActionStep::CommitRemote { invalidate_all }) + d);
            if i > b.len() {
                assert(steps[i] == d[i - b.len() - 1]);
                assert(steps[i - 1] == if i - 1 == b.len() {
                    ActionStep::CommitRemote { invalidate_all }
                } else {
                    d[i - b.len() - 2]
                });
            }
        },
        _ => {},
    }
}

/// The errors met while syncing, each with the path it concerns.
#[derive(Debug)]
pub struct SyncAggregateError {
    context: String,
    entries: Vec<(String, String)>,
}

pub open spec fn error_lines(entries: Seq<(Seq<char>, Seq<char>)>) -> Seq<char>
    decreases entries.len(),
{
    if entries.len() == 0 {
        Seq::empty()
    } else {
        error_lines(entries.drop_last()) + "- "@ + entries.last().0 + ": "@ + entries.last().1 + "\n"@
    }
}

/// `"<context> encountered <n> error(s):"` followed by one line per error.
pub open spec fn aggregate_message(context: Seq<char>, entries: Seq<(Seq<char>, Seq<char>)>) -> Seq<char> {
    context + " encountered "@ + decimal(entries.len()) + " error(s):\n"@ + error_lines(entries)
}

impl SyncAggregateError {
    pub closed spec fn context_text(&self) -> Seq<char> {
        self.context@
    }

    pub closed spec fn entries_view(&self) -> Seq<(Seq<char>, Seq<char>)> {
        crate::remote::pairs_view(self.entries@)
    }

    pub fn new(context: String) -> (r: Self)
        ensures
            r.context_text() == context@,
            r.entries_view().len() == 0,
    {
        SyncAggregateError { context, entries: Vec::new() }
    }

    /// Records an error met on `path`.
    pub fn push(&mut self, path: String, error: String)
        ensures
            final(self).context_text() == old(self).context_text(),
            final(self).entries_view() == old(self).entries_view().push((path@, error@)),
    {
        self.entries.push((path, error));
        assert(crate::remote::pairs_view(self.entries@) =~= crate::remote::pairs_view(
            old(self).entries@,
        ).push((path@, error@)));
    }

    pub fn is_empty(&self) -> (r: bool)
        ensures
            r == (self.entries_view().len() == 0),
    {
        self.entries.len() == 0
    }

    /// The report of all errors.
    pub fn to_message(&self) -> (r: String)
        requires
            self.entries_view().len() <= u64::MAX,
        ensures
            r@ == aggregate_message(self.context_text(), self.entries_view()),
    {
        let mut out = String::new();
        push_str(&mut out, self.context.as_str());
        push_str(&mut out, " encountered ");
        push_decimal(&mut out, self.entries.len() as u64);
        push_str(&mut out, " error(s):\n");
        let ghost head = out@;
        let mut i: usize = 0;
        while i < self.entries.len()
            invariant
                i <= self.entries@.len(),
                out@ == head + error_lines(crate::remote::pairs_view(self.entries@.subrange(0, i as int))),
            decreases self.entries.len() - i,
        {
            let ghost pre = crate::remote::pairs_view(self.entries@.subrange(0, i as int));
            let ghost post = crate::remote::pairs_view(self.entries@.subrange(0, i + 1));
            assert(post.drop_last() =~= pre);
            push_str(&mut out, "- ");
            push_str(&mut out, self.entries[i].0.as_str());
            push_str(&mut out, ": ");
            push_str(&mut out, self.entries[i].1.as_str());
            push_str(&mut out, "\n");
            assert(out@ =~= head + error_lines(post));
            i = i + 1;
        }
        assert(self.entries@.subrange(0, self.entries@.len() as int) =~= self.entries@);
        out
    }

    /// `Ok` when nothing failed, else the report of all errors.
    pub fn into_result(self) -> (r: Result<(), String>)
        requires
            self.entries_view().len() <= u64::MAX,
        ensures
            self.entries_view().len() == 0 ==> r is Ok,
            self.entries_view().len() > 0 ==> r is Err && r->Err_0@ == aggregate_message(
                self.context_text(),
                self.entries_view(),
            ),
    {
        if self.is_empty() {
            Ok(())
        } else {
            Err(self.to_message())
        }
    }
}

/// The key a path is grouped under: its parent, or itself when it has none.
pub open spec fn group_key(p: Seq<char>) -> Seq<char> {
    match spec_path_parent(p) {
        Some(q) => q,
        None => p,
    }
}

/// The first group whose key is the same path as `key`, from position `j` on.
pub open spec fn first_group(groups: Seq<(Seq<char>, Seq<Seq<char>>)>, key: Seq<char>, j: int) -> Option<int>
    decreases groups.len() - j,
{
    if j < 0 || j >= groups.len() {
        None
    } else if spec_path_eq(groups[j].0, key) {
        Some(j)
    } else {
        first_group(groups, key, j + 1)
    }
}

/// Paths grouped under their parent directories, groups in order of first
/// appearance, paths in order within a group.
pub open spec fn grouped_paths(paths: Seq<Seq<char>>) -> Seq<(Seq<char>, Seq<Seq<char>>)>
    decreases paths.len(),
{
    if paths.len() == 0 {
        Seq::empty()
    } else {
        let groups = grouped_paths(paths.drop_last());
        let p = paths.last();
        match first_group(groups, group_key(p), 0) {
            Some(j) => groups.update(j, (groups[j].0, groups[j].1.push(p))),
            None => groups.push((group_key(p), seq![p])),
        }
    }
}

pub open spec fn groups_view(v: Seq<(String, Vec<String>)>) -> Seq<(Seq<char>, Seq<Seq<char>>)> {
    v.map_values(|g: (String, Vec<String>)| (g.0@, strings_view(g.1@)))
}

fn find_group(groups: &Vec<(String, Vec<String>)>, key: &str) -> (r: Option<usize>)
    ensures
        match r {
            Some(j) => first_group(groups_view(groups@), key@, 0) == Some(j as int) && j < groups@.len(),
            None => first_group(groups_view(groups@), key@, 0) is None,
        },
{
    let mut j: usize = 0;
    while j < groups.len()
        invariant
            j <= groups@.len(),
            first_group(groups_view(groups@), key@, 0) == first_group(groups_view(groups@), key@, j as int),
        decreases groups.len() - j,
    {
        if paths_equal(groups[j].0.as_str(), key) {
            return Some(j);
        }
        j = j + 1;
    }
    None
}

fn parent_or_self(p: &str) -> (r: String)
    ensures
        r@ == group_key(p@),
{
    match path_parent(p) {
        Some(q) => q,
        None => p.to_owned(),
    }
}

/// Groups the paths of a sync request under their parent directories; each
/// group is synced on its own.
pub fn group_paths_by_parent(paths: &Vec<String>) -> (r: Vec<(String, Vec<String>)>)
    ensures
        groups_view(r@) == grouped_paths(strings_view(paths@)),
{
    let mut groups: Vec<(String, Vec<String>)> = Vec::new();
    let mut i: usize = 0;
    while i < paths.len()
        invariant
            i <= paths@.len(),
            groups_view(groups@) == grouped_paths(strings_view(paths@.subrange(0, i as int))),
        decreases paths.len() - i,
    {
        let ghost pre = strings_view(paths@.subrange(0, i as int));
        let ghost post = strings_view(paths@.subrange(0, i + 1));
        assert(post.drop_last() =~= pre);
        assert(post.last() == paths@[i as int]@);
        let ghost before = groups_view(groups@);
        let key = parent_or_self(paths[i].as_str());
        match find_group(&groups, key.as_str()) {
            Some(j) => {
                let mut tmp: Vec<(String, Vec<String>)> = Vec::new();
                std::mem::swap(&mut tmp, &mut groups);
                let mut members: Vec<String> = Vec::new();
                std::mem::swap(&mut members, &mut tmp[j].1);
                let ghost old_members = strings_view(members@);
                members.push(paths[i].clone());
                let name = tmp[j].0.clone();
                tmp.set(j, (name, members));
                proof {
                    assert(strings_view(members@) =~= old_members.push(paths@[i as int]@));
                }
                groups = tmp;
                assert(groups_view(groups@) =~= before.update(
                    j as int,
                    (before[j as int].0, before[j as int].1.push(paths@[i as int]@)),
                ));
            },
            None => {
                let members = vec![paths[i].clone()];
                groups.push((key, members));
                assert(strings_view(members@) =~= seq![paths@[i as int]@]);
                assert(groups_view(groups@) =~= before.push((group_key(paths@[i as int]@), seq![paths@[i as int]@])));
            },
        }
        i = i + 1;
    }
    assert(paths@.subrange(0, paths@.len() as int) =~= paths@);
    groups
}

/// Grouping keeps every path: the group sizes add up to the number of paths.
pub open spec fn total_members(groups: Seq<(Seq<char>, Seq<Seq<char>>)>) -> int
    decreases groups.len(),
{
    if groups.len() == 0 {
        0
    } else {
        total_members(groups.drop_last()) + groups.last().1.len()
    }
}

proof fn lemma_total_members_update(groups: Seq<(Seq<char>, Seq<Seq<char>>)>, j: int, g: (Seq<char>, Seq<Seq<char>>))
    requires
        0 <= j < groups.len(),
    ensures
        total_members(groups.update(j, g)) == total_members(groups) - groups[j].1.len() + g.1.len(),
    decreases groups.len(),
{
    let u = groups.update(j, g);
    if j == groups.len() - 1 {
        assert(u.drop_last() =~= groups.drop_last());
    } else {
        lemma_total_members_update(groups.drop_last(), j, g);
        assert(u.drop_last() =~= groups.drop_last().update(j, g));
    }
}

/// Grouping neither loses nor duplicates a path.
pub proof fn lemma_grouping_keeps_every_path(paths: Seq<Seq<char>>)
    ensures
        total_members(grouped_paths(paths)) == paths.len(),
    decreases paths.len(),
{
    if paths.len() > 0 {
        lemma_grouping_keeps_every_path(paths.drop_last());
        let groups = grouped_paths(paths.drop_last());
        let p = paths.last();
        match first_group(groups, group_key(p), 0) {
            Some(j) => {
                lemma_first_group_in_range(groups, group_key(p), 0);
                lemma_total_members_update(groups, j, (groups[j].0, groups[j].1.push(p)));
            },
            None => {
                let g2 = groups.push((group_key(p), seq![p]));
                assert(g2.drop_last() =~= groups);
            },
        }
    }
}

proof fn lemma_first_group_in_range(groups: Seq<(Seq<char>, Seq<Seq<char>>)>, key: Seq<char>, j: int)
    ensures
        first_group(groups, key, j) matches Some(k) ==> j <= k < groups.len(),
    decreases groups.len() - j,
{
    if 0 <= j < groups.len() && !spec_path_eq(groups[j].0, key) {
        lemma_first_group_in_range(groups, key, j + 1);
    }
}

/// What walking a directory does next.
#[derive(Debug, Clone, Copy, PartialEq, Eq, Structural)]
pub enum WalkStep {
    /// No children were found locally or remotely.
    Skip,
    /// Sync the children as a group, handing over the remote entries found
    /// while listing when there are any.
    SyncChildren { with_prefetched: bool },
}

pub fn walk_step(children: usize, remote_entries: usize) -> (r: WalkStep)
    ensures
        children == 0 ==> r == WalkStep::Skip,
        children > 0 ==> r == (WalkStep::SyncChildren { with_prefetched: remote_entries > 0 }),
{
    if children == 0 {
        WalkStep::Skip
    } else {
        WalkStep::SyncChildren { with_prefetched: remote_entries > 0 }
    }
}

/// Seconds since the epoch of a time given as its distance from the epoch
/// (before it when `before_epoch`).
pub fn unix_secs_from_epoch_offset(before_epoch: bool, secs: u64) -> (r: Option<i64>)
    requires
        before_epoch ==> secs as i64 != i64::MIN,
    ensures
        r == Some(if before_epoch { (-(secs as i64)) as i64 } else { secs as i64 }),
{
    let s = secs as i64;
    if before_epoch {
        Some(-s)
    } else {
        Some(s)
    }
}

} // verus!
