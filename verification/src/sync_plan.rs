//! The sync planner: from what is known about a group of paths (remote
//! listing, local state, inventory) it decides which actions to run and
//! which directories to walk next.

use vstd::prelude::*;
use crate::inventory::{bytes_match, local_bytes_match_inventory, ConflictState, FileMetadata};
use crate::paths::{path_extension, path_file_stem, path_with_file_name, spec_path_extension,
    spec_path_file_stem, spec_path_with_file_name};
use crate::platform::{missing_state, LocalAvailability, VirtualFileState};
use crate::remote::{parse_utc_timestamp, spec_utc_timestamp, utc_now_compact_stamp, RemoteFile, RemoteFileType,
    RemoteFileView};
use crate::text::push_str;

verus! {

/// How deep a sync operation traverses from the given paths.
#[derive(Debug, Clone, Copy, PartialEq, Eq, Structural)]
pub enum SyncMode {
    /// Sync only the provided path entries.
    PathOnly,
    /// Sync paths with remote-delete intent (prefer deleting local when remote is missing).
    RemoteDelete,
    /// Sync the provided path entries and their first-level children.
    PathAndFirstLayer,
    /// Sync the provided path entries and every descendant.
    FullHierarchy,
}

/// The mode children of a walked directory are synced with.
pub open spec fn child_mode(mode: SyncMode) -> SyncMode {
    match mode {
        SyncMode::FullHierarchy => SyncMode::FullHierarchy,
        _ => SyncMode::PathOnly,
    }
}

/// The mode children of a walked directory are synced with: a full-hierarchy
/// sync propagates, every other mode stops after one level.
pub fn next_child_mode(mode: SyncMode) -> (r: SyncMode)
    ensures
        r == child_mode(mode),
{
    match mode {
        SyncMode::FullHierarchy => SyncMode::FullHierarchy,
        SyncMode::PathAndFirstLayer => SyncMode::PathOnly,
        SyncMode::RemoteDelete => SyncMode::PathOnly,
        SyncMode::PathOnly => SyncMode::PathOnly,
    }
}

/// Why an upload is queued.
#[derive(Debug, Clone, Copy, PartialEq, Eq, Structural)]
pub enum UploadReason {
    RemoteMismatch,
    RemoteMissing,
}

/// Why a directory is walked.
#[derive(Debug, Clone, Copy, PartialEq, Eq, Structural)]
pub enum WalkReason {
    ModePropagation,
    DiffTriggered,
}

/// Whether a walk runs before or after the group's actions.
#[derive(Debug, Clone, Copy, PartialEq, Eq, Structural)]
pub enum WalkTiming {
    Immediate,
    Deferred,
}

/// A directory to sync next, with the mode for its children.
#[derive(Debug)]
pub struct WalkRequest {
    pub path: String,
    pub mode: SyncMode,
    pub reason: WalkReason,
    pub timing: WalkTiming,
}

pub struct WalkRequestView {
    pub path: Seq<char>,
    pub mode: SyncMode,
    pub reason: WalkReason,
    pub timing: WalkTiming,
}

impl View for WalkRequest {
    type V = WalkRequestView;

    open spec fn view(&self) -> WalkRequestView {
        WalkRequestView { path: self.path@, mode: self.mode, reason: self.reason, timing: self.timing }
    }
}

/// One step of a sync plan.
#[derive(Debug)]
pub enum SyncAction {
    CreatePlaceholderAndInventory { path: String, remote: RemoteFile },
    /// Update inventory and placeholder metadata, converting to a placeholder if needed.
    UpdateInventoryFromRemote { path: String, remote: RemoteFile, invalidate_all: bool },
    QueueUpload { path: String, reason: UploadReason },
    QueueDownload { path: String, remote: RemoteFile },
    DeleteLocalAndInventory { path: String, skip_if_not_empty: bool },
    CreateRemoteFolderIfExist { path: String },
    RenameLocalWithConflict { original: String, renamed: String },
}

pub enum SyncActionView {
    CreatePlaceholderAndInventory { path: Seq<char>, remote: RemoteFileView },
    UpdateInventoryFromRemote { path: Seq<char>, remote: RemoteFileView, invalidate_all: bool },
    QueueUpload { path: Seq<char>, reason: UploadReason },
    QueueDownload { path: Seq<char>, remote: RemoteFileView },
    DeleteLocalAndInventory { path: Seq<char>, skip_if_not_empty: bool },
    CreateRemoteFolderIfExist { path: Seq<char> },
    RenameLocalWithConflict { original: Seq<char>, renamed: Seq<char> },
}

impl View for SyncAction {
    type V = SyncActionView;

    open spec fn view(&self) -> SyncActionView {
        match self {
            SyncAction::CreatePlaceholderAndInventory { path, remote } =>
                SyncActionView::CreatePlaceholderAndInventory { path: path@, remote: remote@ },
            SyncAction::UpdateInventoryFromRemote { path, remote, invalidate_all } =>
                SyncActionView::UpdateInventoryFromRemote {
                    path: path@,
                    remote: remote@,
                    invalidate_all: *invalidate_all,
                },
            SyncAction::QueueUpload { path, reason } =>
                SyncActionView::QueueUpload { path: path@, reason: *reason },
            SyncAction::QueueDownload { path, remote } =>
                SyncActionView::QueueDownload { path: path@, remote: remote@ },
            SyncAction::DeleteLocalAndInventory { path, skip_if_not_empty } =>
                SyncActionView::DeleteLocalAndInventory { path: path@, skip_if_not_empty: *skip_if_not_empty },
            SyncAction::CreateRemoteFolderIfExist { path } =>
                SyncActionView::CreateRemoteFolderIfExist { path: path@ },
            SyncAction::RenameLocalWithConflict { original, renamed } =>
                SyncActionView::RenameLocalWithConflict { original: original@, renamed: renamed@ },
        }
    }
}

/// The actions and walks planned for a group of paths.
pub struct SyncPlan {
    pub actions: Vec<SyncAction>,
    pub walk_requests: Vec<WalkRequest>,
}

pub struct SyncPlanView {
    pub actions: Seq<SyncActionView>,
    pub walks: Seq<WalkRequestView>,
}

impl View for SyncPlan {
    type V = SyncPlanView;

    open spec fn view(&self) -> SyncPlanView {
        SyncPlanView {
            actions: self.actions@.map_values(|a: SyncAction| a@),
            walks: self.walk_requests@.map_values(|w: WalkRequest| w@),
        }
    }
}

/// Walk requests never repeat a `(path, mode)` pair.
pub open spec fn walks_unique(walks: Seq<WalkRequestView>) -> bool {
    forall|i: int, j: int|
        0 <= i < j < walks.len() ==> !(#[trigger] walks[i].path == #[trigger] walks[j].path
            && walks[i].mode == walks[j].mode)
}

/// `walks` with `w` added unless a walk of the same path and mode is planned.
pub open spec fn add_walk(walks: Seq<WalkRequestView>, w: Option<WalkRequestView>) -> Seq<WalkRequestView> {
    match w {
        None => walks,
        Some(w) => if exists|i: int| 0 <= i < walks.len() && walks[i].path == w.path && walks[i].mode == w.mode {
            walks
        } else {
            walks.push(w)
        },
    }
}

pub open spec fn is_folder(r: RemoteFileView) -> bool {
    r.file_type == RemoteFileType::Folder
}

/// Non-negative byte size of a listed file.
pub open spec fn remote_byte_size(r: RemoteFileView) -> u64 {
    if r.size < 0 {
        0
    } else {
        r.size as u64
    }
}

/// Real-file sync does not create a local file while the listing still says
/// `size == 0`: the upload may be in progress.
pub open spec fn skip_zero_byte(real_file_mode: bool, r: RemoteFileView) -> bool {
    real_file_mode && !is_folder(r) && r.size == 0
}

/// The inventory marks a pending conflict.
pub open spec fn conflict_pending(inv: Option<&FileMetadata>) -> bool {
    inv is Some && inv->0.conflict_state == Some(ConflictState::Pending)
}

/// The file name a conflicting local item is renamed to.
pub open spec fn conflict_file_name(path: Seq<char>, stamp: Seq<char>) -> Seq<char> {
    let stem = match spec_path_file_stem(path) {
        Some(s) => s,
        None => "item"@,
    };
    let ext = match spec_path_extension(path) {
        Some(e) => "."@ + e,
        None => Seq::empty(),
    };
    "__conflict__"@ + stamp + "_"@ + stem + ext
}

/// The path a conflicting local item is renamed to, next to the original.
pub open spec fn conflict_path(path: Seq<char>, stamp: Seq<char>) -> Seq<char> {
    spec_path_with_file_name(path, conflict_file_name(path, stamp))
}

/// What to do with a file whose remote copy differs from the inventory.
pub open spec fn file_actions(
    path: Seq<char>,
    remote: RemoteFileView,
    local: VirtualFileState,
    inv: Option<&FileMetadata>,
    real_file_mode: bool,
) -> Seq<SyncActionView> {
    if real_file_mode {
        if conflict_pending(inv) {
            Seq::empty()
        } else {
            let remote_sz = remote_byte_size(remote);
            let local_sz = match local.file_size {
                Some(s) => s,
                None => 0,
            };
            let inv_sz = match inv {
                Some(i) => if i.size < 0 { 0u64 } else { i.size as u64 },
                None => 0u64,
            };
            let pull = bytes_match(local, inv) || (!is_folder(remote) && remote_sz > local_sz) || (
            !is_folder(remote) && inv_sz > 0 && local_sz == 0);
            if pull {
                seq![SyncActionView::QueueDownload { path, remote }]
            } else {
                seq![SyncActionView::QueueUpload { path, reason: UploadReason::RemoteMismatch }]
            }
        }
    } else if !local.is_virtual_placeholder || !local.in_sync {
        if conflict_pending(inv) {
            Seq::empty()
        } else {
            seq![SyncActionView::QueueUpload { path, reason: UploadReason::RemoteMismatch }]
        }
    } else if local.local_availability == LocalAvailability::AlwaysLocal {
        seq![SyncActionView::QueueDownload { path, remote }]
    } else {
        seq![
            SyncActionView::UpdateInventoryFromRemote {
                path,
                remote,
                invalidate_all: !local.partially_on_disk,
            },
        ]
    }
}

/// The walk a directory entry asks for, if any.
pub open spec fn directory_walk(
    path: Seq<char>,
    parent_mode: SyncMode,
    local: VirtualFileState,
    force_diff: bool,
    immediate: bool,
) -> Option<WalkRequestView> {
    let timing = if immediate { WalkTiming::Immediate } else { WalkTiming::Deferred };
    if !local.is_directory {
        None
    } else if (parent_mode == SyncMode::FullHierarchy || parent_mode == SyncMode::PathAndFirstLayer)
        && (local.children_present || !local.is_virtual_placeholder) {
        Some(
            WalkRequestView {
                path,
                mode: child_mode(parent_mode),
                reason: WalkReason::ModePropagation,
                timing,
            },
        )
    } else if force_diff && parent_mode == SyncMode::PathOnly {
        Some(
            WalkRequestView {
                path,
                mode: SyncMode::PathOnly,
                reason: WalkReason::DiffTriggered,
                timing,
            },
        )
    } else {
        None
    }
}

/// The inventory's content version equals the listed one.
pub open spec fn etag_matches(remote: RemoteFileView, inv: Option<&FileMetadata>) -> bool {
    let remote_etag = match remote.primary_entity {
        Some(e) => e,
        None => Seq::empty(),
    };
    inv is Some && inv->0.etag@ == remote_etag
}

/// The inventory's modification time equals the listed one.
pub open spec fn mtime_matches(remote: RemoteFileView, inv: Option<&FileMetadata>) -> bool {
    inv is Some && spec_utc_timestamp(remote.updated_at) is Some && spec_utc_timestamp(
        remote.updated_at,
    )->0 == inv->0.updated_at
}

/// Plan for a path that exists locally and remotely.
pub open spec fn remote_and_local_plan(
    path: Seq<char>,
    mode: SyncMode,
    remote: RemoteFileView,
    local: VirtualFileState,
    inv: Option<&FileMetadata>,
    real_file_mode: bool,
    stamp: Seq<char>,
) -> (Seq<SyncActionView>, Option<WalkRequestView>) {
    let remote_is_dir = is_folder(remote);
    if local.is_directory != remote_is_dir {
        let first = if local.is_virtual_placeholder && local.partially_on_disk {
            SyncActionView::DeleteLocalAndInventory { path, skip_if_not_empty: false }
        } else {
            SyncActionView::RenameLocalWithConflict { original: path, renamed: conflict_path(path, stamp) }
        };
        if skip_zero_byte(real_file_mode, remote) {
            (seq![first], None)
        } else {
            (seq![first, SyncActionView::CreatePlaceholderAndInventory { path, remote }], None)
        }
    } else {
        let etag_match = etag_matches(remote, inv);
        let mtime_match = mtime_matches(remote, inv);
        let size_match = inv is Some && inv->0.size == remote.size;
        let remote_sz = remote_byte_size(remote);
        let disk_needs_hydration = real_file_mode && !remote_is_dir && remote_sz > 0 && match local.file_size {
            Some(s) => s != remote_sz,
            None => true,
        };
        if remote_is_dir {
            let actions = if !etag_match || !mtime_match {
                seq![SyncActionView::UpdateInventoryFromRemote { path, remote, invalidate_all: false }]
            } else {
                Seq::empty()
            };
            (actions, directory_walk(path, mode, local, false, false))
        } else if !etag_match || !mtime_match || !size_match || disk_needs_hydration {
            (file_actions(path, remote, local, inv, real_file_mode), None)
        } else {
            (Seq::empty(), None)
        }
    }
}

/// Plan for a path that exists locally only.
pub open spec fn local_only_plan(path: Seq<char>, mode: SyncMode, local: VirtualFileState) -> (
    Seq<SyncActionView>,
    Option<WalkRequestView>,
) {
    if !local.exists {
        (Seq::empty(), None)
    } else if mode == SyncMode::RemoteDelete {
        (seq![SyncActionView::DeleteLocalAndInventory { path, skip_if_not_empty: local.is_directory }], None)
    } else if local.is_directory {
        if !local.children_present {
            (seq![SyncActionView::DeleteLocalAndInventory { path, skip_if_not_empty: false }], None)
        } else {
            (
                seq![
                    SyncActionView::DeleteLocalAndInventory { path, skip_if_not_empty: true },
                    SyncActionView::CreateRemoteFolderIfExist { path },
                ],
                directory_walk(path, mode, local, true, true),
            )
        }
    } else if local.is_virtual_placeholder && local.in_sync {
        (seq![SyncActionView::DeleteLocalAndInventory { path, skip_if_not_empty: false }], None)
    } else {
        (seq![SyncActionView::QueueUpload { path, reason: UploadReason::RemoteMissing }], None)
    }
}

/// Plan for one path, from its remote listing, local state and inventory row.
pub open spec fn entry_plan(
    path: Seq<char>,
    mode: SyncMode,
    remote: Option<RemoteFileView>,
    local: VirtualFileState,
    inv: Option<&FileMetadata>,
    real_file_mode: bool,
    stamp: Seq<char>,
) -> (Seq<SyncActionView>, Option<WalkRequestView>) {
    match remote {
        Some(r) => if local.exists {
            remote_and_local_plan(path, mode, r, local, inv, real_file_mode, stamp)
        } else if skip_zero_byte(real_file_mode, r) {
            (Seq::empty(), None)
        } else {
            (seq![SyncActionView::CreatePlaceholderAndInventory { path, remote: r }], None)
        },
        None => if local.exists {
            local_only_plan(path, mode, local)
        } else {
            (Seq::empty(), None)
        },
    }
}

/// Real-file sync: skip creating a local file while the listing still has
/// `size == 0` (the upload may be in progress).
pub fn skip_none_mode_materialize_zero_byte_remote_file(real_file_mode: bool, remote: &RemoteFile) -> (r: bool)
    ensures
        r == skip_zero_byte(real_file_mode, remote@),
{
    real_file_mode && !remote.is_folder() && remote.size == 0
}

/// The path a conflicting local item is renamed to: `__conflict__{stamp}_{stem}`
/// with the original extension, next to the original.
pub fn conflict_path_at(path: &str, stamp: &str) -> (r: String)
    ensures
        r@ == conflict_path(path@, stamp@),
{
    let stem = path_file_stem(path);
    let ext = path_extension(path);
    let mut name = String::new();
    push_str(&mut name, "__conflict__");
    push_str(&mut name, stamp);
    push_str(&mut name, "_");
    match &stem {
        Some(s) => push_str(&mut name, s.as_str()),
        None => push_str(&mut name, "item"),
    }
    match &ext {
        Some(e) => {
            name.push('.');
            push_str(&mut name, e.as_str());
        },
        None => {},
    }
    proof {
        reveal_strlit(".");
        assert(name@ =~= conflict_file_name(path@, stamp@));
    }
    path_with_file_name(path, name.as_str())
}

/// The conflict path of `path` stamped with the current UTC time
/// (`YYYYMMDDhhmmss`); which time that is, nothing here states.
pub fn generate_conflict_path(path: &str) -> (r: String)
    ensures
        exists|stamp: Seq<char>| r@ == conflict_path(path@, stamp),
{
    let stamp = utc_now_compact_stamp();
    let r = conflict_path_at(path, stamp.as_str());
    assert(r@ == conflict_path(path@, stamp@));
    r
}

fn is_conflict_pending(inv: Option<&FileMetadata>) -> (r: bool)
    ensures
        r == conflict_pending(inv),
{
    match inv {
        Some(i) => match i.conflict_state {
            Some(ConflictState::Pending) => true,
            _ => false,
        },
        None => false,
    }
}

fn remote_size_bytes(remote: &RemoteFile) -> (r: u64)
    ensures
        r == remote_byte_size(remote@),
{
    if remote.size < 0 {
        0
    } else {
        remote.size as u64
    }
}

impl SyncPlan {
    /// An empty plan.
    pub fn new() -> (r: SyncPlan)
        ensures
            r@.actions == Seq::<SyncActionView>::empty(),
            r@.walks == Seq::<WalkRequestView>::empty(),
    {
        let r = SyncPlan { actions: Vec::new(), walk_requests: Vec::new() };
        assert(r@.actions =~= Seq::<SyncActionView>::empty());
        assert(r@.walks =~= Seq::<WalkRequestView>::empty());
        r
    }

    fn push_action(&mut self, a: SyncAction)
        ensures
            final(self)@.actions == old(self)@.actions.push(a@),
            final(self)@.walks == old(self)@.walks,
    {
        self.actions.push(a);
        assert(self@.actions =~= old(self)@.actions.push(a@));
        assert(self@.walks =~= old(self)@.walks);
    }

    /// Adds a walk of `path` in `mode` unless one is planned already.
    pub fn insert_walk_request(&mut self, path: String, mode: SyncMode, reason: WalkReason, timing: WalkTiming)
        ensures
            final(self)@.actions == old(self)@.actions,
            final(self)@.walks == add_walk(
                old(self)@.walks,
                Some(WalkRequestView { path: path@, mode, reason, timing }),
            ),
    {
        let ghost w = WalkRequestView { path: path@, mode, reason, timing };
        let mut i: usize = 0;
        while i < self.walk_requests.len()
            invariant
                i <= self.walk_requests@.len(),
                self@ == old(self)@,
                w == (WalkRequestView { path: path@, mode, reason, timing }),
                forall|j: int|
                    0 <= j < i ==> !(self@.walks[j].path == w.path && self@.walks[j].mode == w.mode),
            decreases self.walk_requests.len() - i,
        {
            let existing = &self.walk_requests[i];
            assert(self@.walks[i as int] == existing@);
            if crate::text::str_eq(existing.path.as_str(), path.as_str()) && existing.mode == mode {
                assert(self@.walks[i as int] == existing@);
                return;
            }
            i = i + 1;
        }
        self.walk_requests.push(WalkRequest { path, mode, reason, timing });
        assert(self@.walks =~= old(self)@.walks.push(w));
        assert(self@.actions =~= old(self)@.actions);
    }

    /// Plans a walk of a directory entry when its mode asks for one.
    pub fn maybe_enqueue_walk_for_directory(
        &mut self,
        path: &String,
        parent_mode: SyncMode,
        local: &VirtualFileState,
        force_diff: bool,
        immediate: bool,
    )
        ensures
            final(self)@.actions == old(self)@.actions,
            final(self)@.walks == add_walk(
                old(self)@.walks,
                directory_walk(path@, parent_mode, *local, force_diff, immediate),
            ),
    {
        if !local.is_directory {
            return;
        }
        let timing = if immediate {
            WalkTiming::Immediate
        } else {
            WalkTiming::Deferred
        };
        if (parent_mode == SyncMode::FullHierarchy || parent_mode == SyncMode::PathAndFirstLayer)
            && (local.children_present || !local.is_virtual_placeholder) {
            let mode = next_child_mode(parent_mode);
            self.insert_walk_request(path.clone(), mode, WalkReason::ModePropagation, timing);
            return;
        }
        if force_diff && parent_mode == SyncMode::PathOnly {
            self.insert_walk_request(path.clone(), SyncMode::PathOnly, WalkReason::DiffTriggered, timing);
        }
    }

    /// Plans the transfer for a file whose remote copy differs from the inventory.
    pub fn plan_file_actions(
        &mut self,
        path: &String,
        remote: &RemoteFile,
        local: &VirtualFileState,
        inventory: Option<&FileMetadata>,
        real_file_mode: bool,
    )
        ensures
            final(self)@.actions == old(self)@.actions + file_actions(path@, remote@, *local, inventory, real_file_mode),
            final(self)@.walks == old(self)@.walks,
    {
        let pending = is_conflict_pending(inventory);
        if real_file_mode {
            if pending {
                assert(old(self)@.actions + file_actions(path@, remote@, *local, inventory, real_file_mode)
                    =~= old(self)@.actions);
                return;
            }
            let remote_sz = remote_size_bytes(remote);
            let local_sz = match local.file_size {
                Some(s) => s,
                None => 0,
            };
            let inv_sz: u64 = match inventory {
                Some(i) => if i.size < 0 { 0 } else { i.size as u64 },
                None => 0,
            };
            let pull = local_bytes_match_inventory(local, inventory) || (!remote.is_folder() && remote_sz
                > local_sz) || (!remote.is_folder() && inv_sz > 0 && local_sz == 0);
            if pull {
                self.push_action(SyncAction::QueueDownload { path: path.clone(), remote: remote.duplicate() });
            } else {
                self.push_action(SyncAction::QueueUpload { path: path.clone(), reason: UploadReason::RemoteMismatch });
            }
            return;
        }
        if !local.is_virtual_placeholder || !local.in_sync {
            if !pending {
                self.push_action(SyncAction::QueueUpload { path: path.clone(), reason: UploadReason::RemoteMismatch });
            } else {
                assert(old(self)@.actions + file_actions(path@, remote@, *local, inventory, real_file_mode)
                    =~= old(self)@.actions);
            }
            return;
        }
        if local.local_availability == LocalAvailability::AlwaysLocal {
            self.push_action(SyncAction::QueueDownload { path: path.clone(), remote: remote.duplicate() });
        } else {
            self.push_action(
                SyncAction::UpdateInventoryFromRemote {
                    path: path.clone(),
                    remote: remote.duplicate(),
                    invalidate_all: !local.partially_on_disk,
                },
            );
        }
    }

    /// Plans a path that exists locally and remotely.
    pub fn plan_entry_with_remote_and_local(
        &mut self,
        path: &String,
        mode: SyncMode,
        remote: &RemoteFile,
        local: &VirtualFileState,
        inventory: Option<&FileMetadata>,
        real_file_mode: bool,
        stamp: &str,
    )
        ensures
            final(self)@.actions == old(self)@.actions + remote_and_local_plan(
                path@,
                mode,
                remote@,
                *local,
                inventory,
                real_file_mode,
                stamp@,
            ).0,
            final(self)@.walks == add_walk(
                old(self)@.walks,
                remote_and_local_plan(path@, mode, remote@, *local, inventory, real_file_mode, stamp@).1,
            ),
    {
        let ghost plan = remote_and_local_plan(path@, mode, remote@, *local, inventory, real_file_mode, stamp@);
        let remote_is_dir = remote.is_folder();
        if local.is_directory != remote_is_dir {
            if local.is_virtual_placeholder && local.partially_on_disk {
                self.push_action(SyncAction::DeleteLocalAndInventory { path: path.clone(), skip_if_not_empty: false });
            } else {
                let renamed = conflict_path_at(path.as_str(), stamp);
                self.push_action(SyncAction::RenameLocalWithConflict { original: path.clone(), renamed });
            }
            if !skip_none_mode_materialize_zero_byte_remote_file(real_file_mode, remote) {
                self.push_action(
                    SyncAction::CreatePlaceholderAndInventory { path: path.clone(), remote: remote.duplicate() },
                );
            }
            assert(self@.actions =~= old(self)@.actions + plan.0);
            return;
        }
        proof {
            reveal_strlit("");
        }
        let etag_match = match inventory {
            Some(entry) => match &remote.primary_entity {
                Some(e) => crate::text::str_eq(entry.etag.as_str(), e.as_str()),
                None => {
                    let r = crate::text::str_eq(entry.etag.as_str(), "");
                    assert(""@ =~= Seq::<char>::empty());
                    r
                },
            },
            None => false,
        };
        assert(etag_match == etag_matches(remote@, inventory));
        let modify_date_match = match inventory {
            Some(entry) => match parse_utc_timestamp(remote.updated_at.as_str()) {
                Some(ts) => ts == entry.updated_at,
                None => false,
            },
            None => false,
        };
        assert(modify_date_match == mtime_matches(remote@, inventory));
        let size_match = match inventory {
            Some(entry) => entry.size == remote.size,
            None => false,
        };
        let remote_sz = remote_size_bytes(remote);
        let disk_needs_hydration = real_file_mode && !remote_is_dir && remote_sz > 0 && match local.file_size {
            Some(s) => s != remote_sz,
            None => true,
        };
        if remote_is_dir {
            if !etag_match || !modify_date_match {
                self.push_action(
                    SyncAction::UpdateInventoryFromRemote {
                        path: path.clone(),
                        remote: remote.duplicate(),
                        invalidate_all: false,
                    },
                );
            }
            self.maybe_enqueue_walk_for_directory(path, mode, local, false, false);
            assert(self@.actions =~= old(self)@.actions + plan.0);
            return;
        }
        if !etag_match || !modify_date_match || !size_match || disk_needs_hydration {
            self.plan_file_actions(path, remote, local, inventory, real_file_mode);
        } else {
            assert(self@.actions =~= old(self)@.actions + plan.0);
        }
    }

    /// Plans a path that exists locally only.
    pub fn plan_entry_with_local_only(&mut self, path: &String, mode: SyncMode, local: &VirtualFileState)
        ensures
            final(self)@.actions == old(self)@.actions + local_only_plan(path@, mode, *local).0,
            final(self)@.walks == add_walk(old(self)@.walks, local_only_plan(path@, mode, *local).1),
    {
        let ghost plan = local_only_plan(path@, mode, *local);
        if !local.exists {
            assert(self@.actions =~= old(self)@.actions + plan.0);
            return;
        }
        if mode == SyncMode::RemoteDelete {
            self.push_action(
                SyncAction::DeleteLocalAndInventory { path: path.clone(), skip_if_not_empty: local.is_directory },
            );
            assert(self@.actions =~= old(self)@.actions + plan.0);
            return;
        }
        if local.is_directory {
            let hydrated = local.children_present;
            if !hydrated {
                self.push_action(SyncAction::DeleteLocalAndInventory { path: path.clone(), skip_if_not_empty: false });
                assert(self@.actions =~= old(self)@.actions + plan.0);
                return;
            }
            self.maybe_enqueue_walk_for_directory(path, mode, local, true, hydrated);
            self.push_action(SyncAction::DeleteLocalAndInventory { path: path.clone(), skip_if_not_empty: true });
            self.push_action(SyncAction::CreateRemoteFolderIfExist { path: path.clone() });
            assert(self@.actions =~= old(self)@.actions + plan.0);
            return;
        }
        if local.is_virtual_placeholder && local.in_sync {
            self.push_action(SyncAction::DeleteLocalAndInventory { path: path.clone(), skip_if_not_empty: false });
            assert(self@.actions =~= old(self)@.actions + plan.0);
            return;
        }
        self.push_action(SyncAction::QueueUpload { path: path.clone(), reason: UploadReason::RemoteMissing });
        assert(self@.actions =~= old(self)@.actions + plan.0);
    }

    /// Plans one path from its remote listing, local state and inventory row.
    pub fn plan_entry_actions(
        &mut self,
        path: &String,
        mode: SyncMode,
        remote: Option<&RemoteFile>,
        local: &VirtualFileState,
        inventory: Option<&FileMetadata>,
        real_file_mode: bool,
        stamp: &str,
    )
        ensures
            ({
                let r = match remote {
                    Some(x) => Some(x@),
                    None => None,
                };
                let p = entry_plan(path@, mode, r, *local, inventory, real_file_mode, stamp@);
                &&& final(self)@.actions == old(self)@.actions + p.0
                &&& final(self)@.walks == add_walk(old(self)@.walks, p.1)
            }),
    {
        match remote {
            Some(remote_entry) => {
                if local.exists {
                    self.plan_entry_with_remote_and_local(
                        path,
                        mode,
                        remote_entry,
                        local,
                        inventory,
                        real_file_mode,
                        stamp,
                    );
                } else if skip_none_mode_materialize_zero_byte_remote_file(real_file_mode, remote_entry) {
                    assert(self@.actions =~= old(self)@.actions + Seq::<SyncActionView>::empty());
                } else {
                    self.push_action(
                        SyncAction::CreatePlaceholderAndInventory {
                            path: path.clone(),
                            remote: remote_entry.duplicate(),
                        },
                    );
                    assert(self@.actions =~= old(self)@.actions + seq![
                        SyncActionView::CreatePlaceholderAndInventory { path: path@, remote: remote_entry@ },
                    ]);
                }
            },
            None => {
                if local.exists {
                    self.plan_entry_with_local_only(path, mode, local);
                } else {
                    assert(self@.actions =~= old(self)@.actions + Seq::<SyncActionView>::empty());
                }
            },
        }
    }
}


/// Position of the first entry whose key is `key`, searching from `i`.
pub open spec fn find_from<T>(entries: Seq<(String, T)>, key: Seq<char>, i: int) -> Option<int>
    decreases entries.len() - i,
{
    if i < 0 || i >= entries.len() {
        None
    } else if entries[i].0@ == key {
        Some(i)
    } else {
        find_from(entries, key, i + 1)
    }
}

/// The plan for the first `n` paths of a group, each looked up in the
/// remote listing, the local states (missing when absent) and the inventory.
pub open spec fn group_plan(
    mode: SyncMode,
    paths: Seq<String>,
    remotes: Seq<(String, RemoteFile)>,
    locals: Seq<(String, VirtualFileState)>,
    invs: Seq<(String, FileMetadata)>,
    real_file_mode: bool,
    stamp: Seq<char>,
    n: int,
) -> SyncPlanView
    decreases n,
{
    if n <= 0 {
        SyncPlanView { actions: Seq::empty(), walks: Seq::empty() }
    } else {
        let prev = group_plan(mode, paths, remotes, locals, invs, real_file_mode, stamp, n - 1);
        let p = paths[n - 1]@;
        let r = match find_from(remotes, p, 0) {
            Some(j) => Some(remotes[j].1@),
            None => None,
        };
        let l = match find_from(locals, p, 0) {
            Some(j) => locals[j].1,
            None => missing_state(),
        };
        let inv = match find_from(invs, p, 0) {
            Some(j) => Some(&invs[j].1),
            None => None,
        };
        let e = entry_plan(p, mode, r, l, inv, real_file_mode, stamp);
        SyncPlanView { actions: prev.actions + e.0, walks: add_walk(prev.walks, e.1) }
    }
}

/// Position of the first entry keyed by `key`.
pub fn find_entry<T>(entries: &Vec<(String, T)>, key: &str) -> (r: Option<usize>)
    ensures
        match r {
            Some(i) => find_from(entries@, key@, 0) == Some(i as int) && i < entries@.len(),
            None => find_from(entries@, key@, 0) is None,
        },
{
    let mut i: usize = 0;
    while i < entries.len()
        invariant
            i <= entries@.len(),
            find_from(entries@, key@, 0) == find_from(entries@, key@, i as int),
        decreases entries.len() - i,
    {
        if crate::text::str_eq(entries[i].0.as_str(), key) {
            return Some(i);
        }
        i = i + 1;
    }
    None
}

/// Plans a group of paths: each path is looked up in the remote listing,
/// the local states and the inventory, and planned in order.
pub fn build_sync_plan(
    mode: SyncMode,
    paths: &Vec<String>,
    remote_files: &Vec<(String, RemoteFile)>,
    local_files: &Vec<(String, VirtualFileState)>,
    inventory_entries: &Vec<(String, FileMetadata)>,
    real_file_mode: bool,
    stamp: &str,
) -> (plan: SyncPlan)
    ensures
        plan@ == group_plan(
            mode,
            paths@,
            remote_files@,
            local_files@,
            inventory_entries@,
            real_file_mode,
            stamp@,
            paths@.len() as int,
        ),
{
    let mut plan = SyncPlan::new();
    let mut i: usize = 0;
    while i < paths.len()
        invariant
            i <= paths@.len(),
            plan@ == group_plan(
                mode,
                paths@,
                remote_files@,
                local_files@,
                inventory_entries@,
                real_file_mode,
                stamp@,
                i as int,
            ),
        decreases paths.len() - i,
    {
        let path = &paths[i];
        let remote = match find_entry(remote_files, path.as_str()) {
            Some(j) => Some(&remote_files[j].1),
            None => None,
        };
        let local = match find_entry(local_files, path.as_str()) {
            Some(j) => local_files[j].1,
            None => VirtualFileState::missing(),
        };
        let inventory = match find_entry(inventory_entries, path.as_str()) {
            Some(j) => Some(&inventory_entries[j].1),
            None => None,
        };
        plan.plan_entry_actions(path, mode, remote, &local, inventory, real_file_mode, stamp);
        i = i + 1;
    }
    plan
}

/// Plans a group of paths (see [`build_sync_plan`]) with conflict names
/// stamped with the current UTC time.
pub fn build_sync_plan_now(
    mode: SyncMode,
    paths: &Vec<String>,
    remote_files: &Vec<(String, RemoteFile)>,
    local_files: &Vec<(String, VirtualFileState)>,
    inventory_entries: &Vec<(String, FileMetadata)>,
    real_file_mode: bool,
) -> (plan: SyncPlan)
    ensures
        exists|stamp: Seq<char>|
            plan@ == group_plan(
                mode,
                paths@,
                remote_files@,
                local_files@,
                inventory_entries@,
                real_file_mode,
                stamp,
                paths@.len() as int,
            ),
{
    let stamp = utc_now_compact_stamp();
    let plan = build_sync_plan(
        mode,
        paths,
        remote_files,
        local_files,
        inventory_entries,
        real_file_mode,
        stamp.as_str(),
    );
    assert(plan@ == group_plan(
        mode,
        paths@,
        remote_files@,
        local_files@,
        inventory_entries@,
        real_file_mode,
        stamp@,
        paths@.len() as int,
    ));
    plan
}

/// Adding a walk keeps the walk list free of repeated `(path, mode)` pairs.
pub proof fn lemma_add_walk_keeps_unique(walks: Seq<WalkRequestView>, w: Option<WalkRequestView>)
    requires
        walks_unique(walks),
    ensures
        walks_unique(add_walk(walks, w)),
{
    if let Some(x) = w {
        if !(exists|i: int| 0 <= i < walks.len() && walks[i].path == x.path && walks[i].mode == x.mode) {
            let n = walks.push(x);
            assert forall|i: int, j: int| 0 <= i < j < n.len() implies !(#[trigger] n[i].path
                == #[trigger] n[j].path && n[i].mode == n[j].mode) by {
                if j == walks.len() {
                    assert(n[i] == walks[i]);
                } else {
                    assert(n[i] == walks[i] && n[j] == walks[j]);
                }
            }
        }
    }
}

/// A plan never walks the same directory twice in the same mode.
pub proof fn lemma_group_plan_walks_unique(
    mode: SyncMode,
    paths: Seq<String>,
    remotes: Seq<(String, RemoteFile)>,
    locals: Seq<(String, VirtualFileState)>,
    invs: Seq<(String, FileMetadata)>,
    real_file_mode: bool,
    stamp: Seq<char>,
    n: int,
)
    ensures
        walks_unique(group_plan(mode, paths, remotes, locals, invs, real_file_mode, stamp, n).walks),
    decreases n,
{
    if n > 0 {
        lemma_group_plan_walks_unique(mode, paths, remotes, locals, invs, real_file_mode, stamp, n - 1);
        let prev = group_plan(mode, paths, remotes, locals, invs, real_file_mode, stamp, n - 1);
        let p = paths[n - 1]@;
        let r = match find_from(remotes, p, 0) {
            Some(j) => Some(remotes[j].1@),
            None => None,
        };
        let l = match find_from(locals, p, 0) {
            Some(j) => locals[j].1,
            None => missing_state(),
        };
        let inv = match find_from(invs, p, 0) {
            Some(j) => Some(&invs[j].1),
            None => None,
        };
        lemma_add_walk_keeps_unique(prev.walks, entry_plan(p, mode, r, l, inv, real_file_mode, stamp).1);
    } else {
        assert(walks_unique(Seq::<WalkRequestView>::empty()));
    }
}

/// The action is a removal of a local item.
pub open spec fn is_delete(a: SyncActionView) -> bool {
    a is DeleteLocalAndInventory
}

/// A remote-delete sync of paths that have no remote listing only removes
/// local items: it never uploads, downloads or creates anything.
pub proof fn lemma_remote_delete_only_deletes(
    paths: Seq<String>,
    locals: Seq<(String, VirtualFileState)>,
    invs: Seq<(String, FileMetadata)>,
    real_file_mode: bool,
    stamp: Seq<char>,
    n: int,
)
    ensures
        forall|k: int|
            0 <= k < group_plan(
                SyncMode::RemoteDelete,
                paths,
                Seq::empty(),
                locals,
                invs,
                real_file_mode,
                stamp,
                n,
            ).actions.len() ==> is_delete(
                #[trigger] group_plan(
                    SyncMode::RemoteDelete,
                    paths,
                    Seq::empty(),
                    locals,
                    invs,
                    real_file_mode,
                    stamp,
                    n,
                ).actions[k],
            ),
    decreases n,
{
    if n > 0 {
        lemma_remote_delete_only_deletes(paths, locals, invs, real_file_mode, stamp, n - 1);
        let remotes = Seq::<(String, RemoteFile)>::empty();
        let prev = group_plan(SyncMode::RemoteDelete, paths, remotes, locals, invs, real_file_mode, stamp, n - 1);
        let cur = group_plan(SyncMode::RemoteDelete, paths, remotes, locals, invs, real_file_mode, stamp, n);
        let p = paths[n - 1]@;
        assert(find_from(remotes, p, 0) is None);
        let l = match find_from(locals, p, 0) {
            Some(j) => locals[j].1,
            None => missing_state(),
        };
        let e = local_only_plan(p, SyncMode::RemoteDelete, l);
        assert forall|k: int| 0 <= k < cur.actions.len() implies is_delete(#[trigger] cur.actions[k]) by {
            if k < prev.actions.len() {
                assert(cur.actions[k] == prev.actions[k]);
            } else {
                assert(cur.actions[k] == e.0[k - prev.actions.len()]);
            }
        }
    }
}

/// The action uploads something.
pub open spec fn is_upload(a: SyncActionView) -> bool {
    a is QueueUpload
}

/// A listed path whose inventory row has a pending conflict is never queued
/// for upload: the conflict waits for the user.
pub proof fn lemma_pending_conflict_never_uploads(
    path: Seq<char>,
    mode: SyncMode,
    remote: RemoteFileView,
    local: VirtualFileState,
    inv: Option<&FileMetadata>,
    real_file_mode: bool,
    stamp: Seq<char>,
)
    requires
        conflict_pending(inv),
    ensures
        forall|k: int|
            0 <= k < entry_plan(path, mode, Some(remote), local, inv, real_file_mode, stamp).0.len()
                ==> !is_upload(
                #[trigger] entry_plan(path, mode, Some(remote), local, inv, real_file_mode, stamp).0[k],
            ),
{
}

/// In real-file sync, a file whose local copy still has the kind and size
/// the inventory recorded (it was not edited here) takes the remote edit:
/// the only action is a download, never an upload over the remote copy,
/// unless a conflict is pending.
pub proof fn lemma_unedited_local_file_pulls_remote_edit(
    path: Seq<char>,
    remote: RemoteFileView,
    local: VirtualFileState,
    inv: Option<&FileMetadata>,
)
    requires
        bytes_match(local, inv),
        !(inv is Some && inv->0.conflict_state == Some(ConflictState::Pending)),
    ensures
        file_actions(path, remote, local, inv, true) == seq![SyncActionView::QueueDownload { path, remote }],
{
}

/// In real-file sync, when a listed file's content version differs from the
/// inventory's and the local file (not a directory) still has the recorded
/// kind and size, the
/// path's plan is exactly one download of the listed entry, and no walk.
pub proof fn lemma_remote_edit_of_unedited_file_is_downloaded(
    path: Seq<char>,
    mode: SyncMode,
    remote: RemoteFileView,
    local: VirtualFileState,
    inv: Option<&FileMetadata>,
    stamp: Seq<char>,
)
    requires
        remote.file_type == RemoteFileType::File,
        !local.is_directory,
        bytes_match(local, inv),
        !(inv is Some && inv->0.conflict_state == Some(ConflictState::Pending)),
        inv is Some && inv->0.etag@ != match remote.primary_entity {
            Some(e) => e,
            None => Seq::<char>::empty(),
        },
    ensures
        entry_plan(path, mode, Some(remote), local, inv, true, stamp) == (
            seq![SyncActionView::QueueDownload { path, remote }],
            None::<WalkRequestView>,
        ),
{
    lemma_unedited_local_file_pulls_remote_edit(path, remote, local, inv);
    assert(!etag_matches(remote, inv));
    assert(remote_and_local_plan(path, mode, remote, local, inv, true, stamp).0 == file_actions(
        path,
        remote,
        local,
        inv,
        true,
    ));
}

/// The action creates a local item for a listed file.
pub open spec fn creates_local(a: SyncActionView) -> bool {
    a is CreatePlaceholderAndInventory
}

/// In real-file sync, a listed file whose size is still 0 is never created
/// locally: its upload may not have finished.
pub proof fn lemma_zero_byte_remote_not_materialized(
    path: Seq<char>,
    mode: SyncMode,
    remote: RemoteFileView,
    local: VirtualFileState,
    inv: Option<&FileMetadata>,
    stamp: Seq<char>,
)
    requires
        remote.file_type == RemoteFileType::File,
        remote.size == 0,
    ensures
        forall|k: int|
            0 <= k < entry_plan(path, mode, Some(remote), local, inv, true, stamp).0.len()
                ==> !creates_local(
                #[trigger] entry_plan(path, mode, Some(remote), local, inv, true, stamp).0[k],
            ),
{
}

/// A path that exists neither locally nor remotely needs nothing.
pub proof fn lemma_absent_path_needs_nothing(
    path: Seq<char>,
    mode: SyncMode,
    local: VirtualFileState,
    inv: Option<&FileMetadata>,
    real_file_mode: bool,
    stamp: Seq<char>,
)
    requires
        !local.exists,
    ensures
        entry_plan(path, mode, None, local, inv, real_file_mode, stamp).0.len() == 0,
        entry_plan(path, mode, None, local, inv, real_file_mode, stamp).1 is None,
{
}

} // verus!
