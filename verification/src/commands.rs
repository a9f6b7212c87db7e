//! Decisions of a mount's command handlers: how a conflict is resolved,
//! how a rename inside the sync root reaches the server, and what each kind
//! of local change leads to.

use vstd::prelude::*;
use crate::fs_events::{CreateKind, EventKind, ModifyKind, RemoveKind, RenameMode};
use crate::inventory::{
    bytes_match, ConflictState, FileMetadata, local_state_matches_inventory, mtime_difference_fits, state_matches,
};
use crate::paths::{
    path_extension, path_file_name, path_file_stem, path_join, path_parent, path_starts_with,
    paths_equal, spec_path_eq, spec_path_extension, spec_path_file_name, spec_path_file_stem,
    spec_path_join, spec_path_parent, spec_path_starts_with,
};
use crate::platform::{LocalAvailability, VirtualFileState};
use crate::remote::pairs_view;
use crate::text::{decimal, push_decimal, push_str, seq_contains, str_contains, str_eq};

verus! {

/// How the user resolves a conflict.
#[derive(Debug, Clone, Copy, PartialEq, Eq, Structural)]
pub enum ConflictAction {
    /// Discard the local copy and download the remote one.
    KeepRemote,
    /// Upload the local copy over the remote one.
    OverwriteRemote,
    /// Keep the local copy under a new name and restore the remote one.
    SaveAsNew,
}

/// The action named by an exact identifier.
pub open spec fn conflict_action_named(s: Seq<char>) -> Option<ConflictAction> {
    if s == "keep_remote"@ {
        Some(ConflictAction::KeepRemote)
    } else if s == "overwrite_remote"@ {
        Some(ConflictAction::OverwriteRemote)
    } else if s == "save_as_new"@ {
        Some(ConflictAction::SaveAsNew)
    } else {
        None
    }
}

impl ConflictAction {
    /// Parses `keep_remote`, `overwrite_remote` or `save_as_new` (exactly).
    pub fn from_str(action: &str) -> (r: Option<ConflictAction>)
        ensures
            r == conflict_action_named(action@),
    {
        if str_eq(action, "keep_remote") {
            Some(ConflictAction::KeepRemote)
        } else if str_eq(action, "overwrite_remote") {
            Some(ConflictAction::OverwriteRemote)
        } else if str_eq(action, "save_as_new") {
            Some(ConflictAction::SaveAsNew)
        } else {
            None
        }
    }
}

/// One step of resolving a conflict, in the order they are carried out.
#[derive(Debug, Clone, Copy, PartialEq, Eq, Structural)]
pub enum ConflictStep {
    /// Remove the local file and its inventory entry.
    DeleteLocal,
    /// Suppress the remove event that the deletion causes.
    BlockRemoveEvent,
    /// Sync the original path alone, which brings the remote version back.
    SyncPathOnly,
    /// Record in the inventory that the user chose to overwrite.
    MarkOverride,
    /// Stop with "file is not pending conflict resolution".
    RejectNotPending,
    /// Queue an upload that replaces the remote copy.
    EnqueueForcedUpload,
    /// Copy the local file to a free name beside it.
    CopyToUniqueName,
    /// Tell the user the name the local copy was saved under.
    NotifyRenamed,
}

/// The steps for a resolution. `file_id` 0 means the path has no inventory
/// entry; a positive id whose entry carries no conflict is refused.
pub open spec fn conflict_steps(
    action: ConflictAction,
    file_id: i64,
    state: Option<ConflictState>,
) -> Option<Seq<ConflictStep>> {
    if file_id > 0 && state is None {
        None
    } else {
        match action {
            ConflictAction::KeepRemote => Some(
                seq![ConflictStep::DeleteLocal, ConflictStep::BlockRemoveEvent, ConflictStep::SyncPathOnly],
            ),
            ConflictAction::OverwriteRemote => if file_id > 0 {
                if state == Some(ConflictState::Pending) {
                    Some(seq![ConflictStep::MarkOverride, ConflictStep::EnqueueForcedUpload])
                } else {
                    Some(seq![ConflictStep::MarkOverride, ConflictStep::RejectNotPending])
                }
            } else {
                Some(seq![ConflictStep::EnqueueForcedUpload])
            },
            ConflictAction::SaveAsNew => Some(
                seq![
                    ConflictStep::CopyToUniqueName,
                    ConflictStep::DeleteLocal,
                    ConflictStep::BlockRemoveEvent,
                    ConflictStep::SyncPathOnly,
                    ConflictStep::NotifyRenamed,
                ],
            ),
        }
    }
}

/// The steps that resolve a conflict on an inventory entry (`file_id` and
/// its conflict state), or the refusal "file is not conflicted".
pub fn plan_conflict_resolution(action: ConflictAction, file_id: i64, state: Option<ConflictState>) -> (r:
    Result<Vec<ConflictStep>, String>)
    ensures
        match conflict_steps(action, file_id, state) {
            None => r is Err && r->Err_0@ == "file is not conflicted"@,
            Some(steps) => r is Ok && r->Ok_0@ == steps,
        },
{
    if file_id > 0 && state.is_none() {
        let mut msg = String::new();
        push_str(&mut msg, "file is not conflicted");
        return Err(msg);
    }
    let steps = match action {
        ConflictAction::KeepRemote => vec![
            ConflictStep::DeleteLocal,
            ConflictStep::BlockRemoveEvent,
            ConflictStep::SyncPathOnly,
        ],
        ConflictAction::OverwriteRemote => {
            if file_id > 0 {
                if state == Some(ConflictState::Pending) {
                    vec![ConflictStep::MarkOverride, ConflictStep::EnqueueForcedUpload]
                } else {
                    vec![ConflictStep::MarkOverride, ConflictStep::RejectNotPending]
                }
            } else {
                vec![ConflictStep::EnqueueForcedUpload]
            }
        },
        ConflictAction::SaveAsNew => vec![
            ConflictStep::CopyToUniqueName,
            ConflictStep::DeleteLocal,
            ConflictStep::BlockRemoveEvent,
            ConflictStep::SyncPathOnly,
            ConflictStep::NotifyRenamed,
        ],
    };
    assert(steps@ =~= conflict_steps(action, file_id, state)->0);
    Ok(steps)
}

/// A resolution only overwrites the remote copy when the user chose to, and
/// only a conflict still pending (or a path outside the inventory) gets there.
pub proof fn lemma_conflict_overwrite_only_when_chosen(
    action: ConflictAction,
    file_id: i64,
    state: Option<ConflictState>,
)
    requires
        conflict_steps(action, file_id, state) is Some,
        conflict_steps(action, file_id, state)->0.contains(ConflictStep::EnqueueForcedUpload),
    ensures
        action == ConflictAction::OverwriteRemote,
        file_id > 0 ==> state == Some(ConflictState::Pending),
{
    let steps = conflict_steps(action, file_id, state)->0;
    let i = choose|i: int| 0 <= i < steps.len() && steps[i] == ConflictStep::EnqueueForcedUpload;
    assert(steps[i] == ConflictStep::EnqueueForcedUpload);
}

/// Keeping the remote copy, with or without saving the local one aside,
/// always ends by syncing the path so the remote version comes back.
pub proof fn lemma_conflict_keep_remote_resyncs(action: ConflictAction, file_id: i64, state: Option<
    ConflictState,
>)
    requires
        action != ConflictAction::OverwriteRemote,
        conflict_steps(action, file_id, state) is Some,
    ensures
        conflict_steps(action, file_id, state)->0.contains(ConflictStep::SyncPathOnly),
        conflict_steps(action, file_id, state)->0.contains(ConflictStep::DeleteLocal),
{
    let steps = conflict_steps(action, file_id, state)->0;
    if action == ConflictAction::KeepRemote {
        assert(steps[2] == ConflictStep::SyncPathOnly);
        assert(steps[0] == ConflictStep::DeleteLocal);
    } else {
        assert(steps[3] == ConflictStep::SyncPathOnly);
        assert(steps[1] == ConflictStep::DeleteLocal);
    }
}

/// Which handler processes a group of file-system events.
#[derive(Debug, Clone, Copy, PartialEq, Eq, Structural)]
pub enum FsEventHandler {
    Delete,
    Create,
    RenameBoth,
    Modify,
    Ignore,
}

pub open spec fn fs_event_handler_spec(kind: EventKind) -> FsEventHandler {
    match kind {
        EventKind::Remove(_) => FsEventHandler::Delete,
        EventKind::Create(_) => FsEventHandler::Create,
        EventKind::Modify(ModifyKind::Name(RenameMode::Both)) => FsEventHandler::RenameBoth,
        EventKind::Modify(_) => FsEventHandler::Modify,
        _ => FsEventHandler::Ignore,
    }
}

/// Removals go to the delete flow, creations to the upload flow, renames
/// that report both ends to the rename flow, other modifications to the
/// modify flow; anything else is ignored.
pub fn fs_event_handler(kind: &EventKind) -> (r: FsEventHandler)
    ensures
        r == fs_event_handler_spec(*kind),
{
    match kind {
        EventKind::Remove(_) => FsEventHandler::Delete,
        EventKind::Create(_) => FsEventHandler::Create,
        EventKind::Modify(m) => match m {
            ModifyKind::Name(mode) => match mode {
                RenameMode::Both => FsEventHandler::RenameBoth,
                _ => FsEventHandler::Modify,
            },
            _ => FsEventHandler::Modify,
        },
        _ => FsEventHandler::Ignore,
    }
}

/// What a modify event on one path leads to.
#[derive(Debug, Clone, Copy, PartialEq, Eq, Structural)]
pub enum ModifyEventAction {
    /// The path is gone: treat it as a deletion.
    RouteToDelete,
    /// Directories are not uploaded on modification.
    SkipDirectory,
    /// The plain file still is what the inventory recorded.
    SkipUnchanged,
    /// A pinned placeholder lost content: download it.
    Hydrate,
    /// A placeholder made online-only: free its content.
    Dehydrate,
    /// Upload the file (unless an upload is already queued).
    EnqueueUpload,
    /// Nothing to do.
    Nothing,
}

pub open spec fn modify_event_spec(
    state: VirtualFileState,
    real_file_mode: bool,
    inventory: Option<&FileMetadata>,
) -> ModifyEventAction {
    if !state.exists {
        ModifyEventAction::RouteToDelete
    } else if state.is_directory {
        ModifyEventAction::SkipDirectory
    } else if real_file_mode && state_matches(state, inventory) {
        ModifyEventAction::SkipUnchanged
    } else if !real_file_mode && state.local_availability == LocalAvailability::AlwaysLocal
        && state.partially_on_disk {
        ModifyEventAction::Hydrate
    } else if !real_file_mode && state.local_availability == LocalAvailability::OnlineOnly {
        ModifyEventAction::Dehydrate
    } else if real_file_mode || !state.in_sync {
        ModifyEventAction::EnqueueUpload
    } else {
        ModifyEventAction::Nothing
    }
}

/// The action for a modify event, from the path's local state, whether the
/// mount uses plain files, and the path's inventory entry.
pub fn modify_event_action(
    state: &VirtualFileState,
    real_file_mode: bool,
    inventory: Option<&FileMetadata>,
) -> (r: ModifyEventAction)
    requires
        real_file_mode && !state.is_directory && bytes_match(*state, inventory) ==> mtime_difference_fits(*state, inventory),
    ensures
        r == modify_event_spec(*state, real_file_mode, inventory),
{
    if !state.exists {
        return ModifyEventAction::RouteToDelete;
    }
    if state.is_directory {
        return ModifyEventAction::SkipDirectory;
    }
    if real_file_mode && local_state_matches_inventory(state, inventory) {
        return ModifyEventAction::SkipUnchanged;
    }
    let pin = state.local_availability;
    if !real_file_mode && pin == LocalAvailability::AlwaysLocal && state.partially_on_disk {
        ModifyEventAction::Hydrate
    } else if !real_file_mode && pin == LocalAvailability::OnlineOnly {
        ModifyEventAction::Dehydrate
    } else if real_file_mode || !state.in_sync {
        ModifyEventAction::EnqueueUpload
    } else {
        ModifyEventAction::Nothing
    }
}

/// A placeholder that is in sync is never uploaded because of a modify
/// event, and a path that is gone is always handed to the delete flow.
pub proof fn lemma_modify_event_respects_sync_state(
    state: VirtualFileState,
    real_file_mode: bool,
    inventory: Option<&FileMetadata>,
)
    ensures
        !real_file_mode && state.in_sync ==> modify_event_spec(state, real_file_mode, inventory)
            != ModifyEventAction::EnqueueUpload,
        (modify_event_spec(state, real_file_mode, inventory) == ModifyEventAction::RouteToDelete)
            == !state.exists,
        real_file_mode ==> modify_event_spec(state, real_file_mode, inventory)
            != ModifyEventAction::Hydrate && modify_event_spec(state, real_file_mode, inventory)
            != ModifyEventAction::Dehydrate,
{
}

/// Hydration is only asked for a file that is partially on disk; in
/// placeholder mode a file changed locally (not in sync), fully on disk and
/// not made online-only is uploaded; with plain files every existing file
/// that no longer matches the inventory is uploaded.
pub proof fn lemma_modify_event_uploads_local_edits(
    state: VirtualFileState,
    real_file_mode: bool,
    inventory: Option<&FileMetadata>,
)
    ensures
        !state.partially_on_disk ==> modify_event_spec(state, real_file_mode, inventory)
            != ModifyEventAction::Hydrate,
        modify_event_spec(state, real_file_mode, inventory) == ModifyEventAction::Hydrate ==> state.exists
            && !state.is_directory && state.local_availability == LocalAvailability::AlwaysLocal,
        !real_file_mode && state.exists && !state.is_directory && !state.in_sync && !state.partially_on_disk
            && state.local_availability != LocalAvailability::OnlineOnly ==> modify_event_spec(
            state,
            real_file_mode,
            inventory,
        ) == ModifyEventAction::EnqueueUpload,
        real_file_mode && state.exists && !state.is_directory && !state_matches(state, inventory)
            ==> modify_event_spec(state, real_file_mode, inventory) == ModifyEventAction::EnqueueUpload,
{
}

/// Whether a create event leads to an upload: in plain-file mode a file that
/// still matches the inventory is skipped.
pub fn create_event_uploads(
    real_file_mode: bool,
    state: &VirtualFileState,
    inventory: Option<&FileMetadata>,
) -> (r: bool)
    requires
        real_file_mode && bytes_match(*state, inventory) ==> mtime_difference_fits(*state, inventory),
    ensures
        r == !(real_file_mode && state_matches(*state, inventory)),
{
    !(real_file_mode && local_state_matches_inventory(state, inventory))
}

/// The marker text of a queue refusal for a task that is already queued.
pub open spec fn duplicate_task_marker() -> Seq<char> {
    "Task already exists"@
}

/// Whether an error, given as the messages of its cause chain, says that
/// the task is already queued.
pub fn is_duplicate_task_error(chain: &Vec<String>) -> (r: bool)
    ensures
        r == exists|i: int| 0 <= i < chain@.len() && seq_contains(chain@[i]@, duplicate_task_marker()),
{
    let mut i: usize = 0;
    while i < chain.len()
        invariant
            i <= chain@.len(),
            forall|j: int| 0 <= j < i ==> !seq_contains(chain@[j]@, duplicate_task_marker()),
        decreases chain.len() - i,
    {
        if str_contains(chain[i].as_str(), "Task already exists") {
            return true;
        }
        i = i + 1;
    }
    false
}

/// What follows once the tasks of a moved path were cancelled.
#[derive(Debug, Clone, Copy, PartialEq, Eq, Structural)]
pub enum AfterCancel {
    Nothing,
    MarkInSync,
    SyncFullHierarchy,
}

/// Whether a rename event reporting both ends is acted on: it must name two
/// paths and the destination must not be a placeholder.
pub fn renamed_event_should_cancel(path_count: usize, destination_is_placeholder: bool) -> (r: bool)
    ensures
        r == (path_count == 2 && !destination_is_placeholder),
{
    path_count == 2 && !destination_is_placeholder
}

/// After a local rename: nothing if no task was cancelled and the
/// destination is in sync, else the destination is synced in full.
pub fn after_renamed_event_cancel(cancelled: u64, destination_in_sync: bool) -> (r: AfterCancel)
    ensures
        r == (if cancelled == 0 && destination_in_sync {
            AfterCancel::Nothing
        } else {
            AfterCancel::SyncFullHierarchy
        }),
{
    if cancelled == 0 && destination_in_sync {
        AfterCancel::Nothing
    } else {
        AfterCancel::SyncFullHierarchy
    }
}

/// After the platform reports a completed rename: the destination is marked
/// in sync if no task was cancelled, else synced in full.
pub fn after_rename_completed_cancel(cancelled: u64) -> (r: AfterCancel)
    ensures
        r == (if cancelled == 0 {
            AfterCancel::MarkInSync
        } else {
            AfterCancel::SyncFullHierarchy
        }),
{
    if cancelled == 0 {
        AfterCancel::MarkInSync
    } else {
        AfterCancel::SyncFullHierarchy
    }
}

/// How a rename requested by the platform reaches the server.
#[derive(Debug, Clone, PartialEq, Eq)]
pub enum RenamePlan {
    /// Outside the sync root, or ignored: nothing to do.
    Nothing,
    /// Moved into the sync root from outside: the create event it causes is
    /// suppressed (the file is picked up as new content).
    BlockCreate,
    /// Same directory: a rename call with the new name.
    RenameInPlace { new_name: String },
    /// Different directory: a move into `destination_dir`.
    Move { destination_dir: String },
}

/// A rename plan, or an error, as plain values.
pub enum RenameDecision {
    Nothing,
    BlockCreate,
    RenameInPlace(Seq<char>),
    Move(Seq<char>),
    Fail(Seq<char>),
}

pub open spec fn rename_result_view(r: Result<RenamePlan, String>) -> RenameDecision {
    match r {
        Ok(RenamePlan::Nothing) => RenameDecision::Nothing,
        Ok(RenamePlan::BlockCreate) => RenameDecision::BlockCreate,
        Ok(RenamePlan::RenameInPlace { new_name }) => RenameDecision::RenameInPlace(new_name@),
        Ok(RenamePlan::Move { destination_dir }) => RenameDecision::Move(destination_dir@),
        Err(e) => RenameDecision::Fail(e@),
    }
}

pub open spec fn rename_decision(
    source: Seq<char>,
    target: Seq<char>,
    sync_path: Seq<char>,
    source_ignored: bool,
    target_ignored: bool,
) -> RenameDecision {
    if !spec_path_starts_with(target, sync_path) {
        RenameDecision::Nothing
    } else if source_ignored || target_ignored {
        RenameDecision::Nothing
    } else if !spec_path_starts_with(source, sync_path) {
        RenameDecision::BlockCreate
    } else {
        match (spec_path_parent(target), spec_path_parent(source)) {
            (Some(tp), Some(sp)) => if spec_path_eq(tp, sp) {
                match spec_path_file_name(target) {
                    Some(name) => RenameDecision::RenameInPlace(name),
                    None => RenameDecision::Fail("target cannot be moved"@),
                }
            } else {
                RenameDecision::Move(tp)
            },
            _ => RenameDecision::Fail("root cannot be moved"@),
        }
    }
}

fn error_text(msg: &str) -> (r: String)
    ensures
        r@ == msg@,
{
    let mut out = String::new();
    push_str(&mut out, msg);
    out
}

/// Plans a rename of `source` to `target` below `sync_path`; the ignore
/// flags say whether either path matches the mount's ignore rules.
pub fn plan_rename(
    source: &str,
    target: &str,
    sync_path: &str,
    source_ignored: bool,
    target_ignored: bool,
) -> (r: Result<RenamePlan, String>)
    ensures
        rename_result_view(r) == rename_decision(
            source@,
            target@,
            sync_path@,
            source_ignored,
            target_ignored,
        ),
{
    if !path_starts_with(target, sync_path) {
        return Ok(RenamePlan::Nothing);
    }
    if source_ignored || target_ignored {
        return Ok(RenamePlan::Nothing);
    }
    if !path_starts_with(source, sync_path) {
        return Ok(RenamePlan::BlockCreate);
    }
    let target_parent = match path_parent(target) {
        Some(p) => p,
        None => {
            return Err(error_text("root cannot be moved"));
        },
    };
    let source_parent = match path_parent(source) {
        Some(p) => p,
        None => {
            return Err(error_text("root cannot be moved"));
        },
    };
    if paths_equal(target_parent.as_str(), source_parent.as_str()) {
        match path_file_name(target) {
            Some(new_name) => Ok(RenamePlan::RenameInPlace { new_name }),
            None => Err(error_text("target cannot be moved")),
        }
    } else {
        Ok(RenamePlan::Move { destination_dir: target_parent })
    }
}

/// The events a successful rename causes that must not be processed again:
/// the create of the target when a file moved in, the rename-from of the
/// source for a rename in place, the remove of the source and the create of
/// the target for a move.
pub open spec fn rename_blocked_events_spec(plan: RenameDecision, source: Seq<char>, target: Seq<char>) -> Seq<
    (EventKind, Seq<char>),
> {
    match plan {
        RenameDecision::BlockCreate => seq![(EventKind::Create(CreateKind::Any), target)],
        RenameDecision::RenameInPlace(_) => seq![
            (EventKind::Modify(ModifyKind::Name(RenameMode::From)), source),
        ],
        RenameDecision::Move(_) => seq![
            (EventKind::Remove(RemoveKind::Any), source),
            (EventKind::Create(CreateKind::Any), target),
        ],
        _ => Seq::empty(),
    }
}

pub open spec fn event_paths_view(v: Seq<(EventKind, String)>) -> Seq<(EventKind, Seq<char>)> {
    v.map_values(|e: (EventKind, String)| (e.0, e.1@))
}

pub fn rename_blocked_events(plan: &RenamePlan, source: &str, target: &str) -> (r: Vec<(EventKind, String)>)
    ensures
        event_paths_view(r@) == rename_blocked_events_spec(
            rename_result_view(Ok::<RenamePlan, String>(*plan)),
            source@,
            target@,
        ),
{
    let mut out: Vec<(EventKind, String)> = Vec::new();
    match plan {
        RenamePlan::BlockCreate => {
            out.push((EventKind::Create(CreateKind::Any), target.to_owned()));
        },
        RenamePlan::RenameInPlace { .. } => {
            out.push((EventKind::Modify(ModifyKind::Name(RenameMode::From)), source.to_owned()));
        },
        RenamePlan::Move { .. } => {
            out.push((EventKind::Remove(RemoveKind::Any), source.to_owned()));
            out.push((EventKind::Create(CreateKind::Any), target.to_owned()));
        },
        RenamePlan::Nothing => {},
    }
    assert(event_paths_view(out@) =~= rename_blocked_events_spec(
        rename_result_view(Ok::<RenamePlan, String>(*plan)),
        source@,
        target@,
    ));
    out
}

/// Whether `uri` is one of `list`.
pub open spec fn listed(list: Seq<String>, uri: Seq<char>) -> bool {
    exists|i: int| 0 <= i < list.len() && (#[trigger] list[i])@ == uri
}

/// The paths of the (uri, path) pairs whose uri is (`failed`) or is not
/// (`!failed`) in the failed list, in order.
pub open spec fn paths_by_outcome(
    pairs: Seq<(Seq<char>, Seq<char>)>,
    failed_list: Seq<String>,
    failed: bool,
) -> Seq<Seq<char>>
    decreases pairs.len(),
{
    if pairs.len() == 0 {
        Seq::empty()
    } else {
        let rest = paths_by_outcome(pairs.drop_last(), failed_list, failed);
        if listed(failed_list, pairs.last().0) == failed {
            rest.push(pairs.last().1)
        } else {
            rest
        }
    }
}

/// The second components of the pairs.
pub open spec fn pair_paths(s: Seq<(Seq<char>, Seq<char>)>) -> Seq<Seq<char>> {
    s.map_values(|p: (Seq<char>, Seq<char>)| p.1)
}

pub open spec fn strings_view(v: Seq<String>) -> Seq<Seq<char>> {
    v.map_values(|s: String| s@)
}

fn is_listed(list: &Vec<String>, uri: &str) -> (r: bool)
    ensures
        r == listed(list@, uri@),
{
    let mut i: usize = 0;
    while i < list.len()
        invariant
            i <= list@.len(),
            forall|j: int| 0 <= j < i ==> (#[trigger] list@[j])@ != uri@,
        decreases list.len() - i,
    {
        if str_eq(list[i].as_str(), uri) {
            return true;
        }
        i = i + 1;
    }
    false
}

/// After a batch delete on the server: which local paths were deleted
/// (their inventory entries go) and which must be synced again. A batch
/// error lists the failed URIs; any other error (`None`) failed them all.
pub fn partition_delete_outcome(pairs: &Vec<(String, String)>, failed_uris: Option<&Vec<String>>) -> (r: (
    Vec<String>,
    Vec<String>,
))
    ensures
        match failed_uris {
            None => r.0@.len() == 0 && strings_view(r.1@) == pair_paths(pairs_view(pairs@)),
            Some(f) => strings_view(r.0@) == paths_by_outcome(pairs_view(pairs@), f@, false)
                && strings_view(r.1@) == paths_by_outcome(pairs_view(pairs@), f@, true),
        },
{
    let mut succeeded: Vec<String> = Vec::new();
    let mut failed: Vec<String> = Vec::new();
    let mut i: usize = 0;
    while i < pairs.len()
        invariant
            i <= pairs@.len(),
            failed_uris is None ==> succeeded@.len() == 0 && strings_view(failed@) == pair_paths(pairs_view(pairs@.subrange(0, i as int))),
            failed_uris is Some ==> strings_view(succeeded@) == paths_by_outcome(
                pairs_view(pairs@.subrange(0, i as int)),
                failed_uris->0@,
                false,
            ) && strings_view(failed@) == paths_by_outcome(
                pairs_view(pairs@.subrange(0, i as int)),
                failed_uris->0@,
                true,
            ),
        decreases pairs.len() - i,
    {
        let ghost pre = pairs_view(pairs@.subrange(0, i as int));
        let ghost post = pairs_view(pairs@.subrange(0, i + 1));
        assert(post.drop_last() =~= pre);
        assert(post.last() == (pairs@[i as int].0@, pairs@[i as int].1@));
        let path = pairs[i].1.clone();
        match failed_uris {
            None => {
                failed.push(path);
                assert(pair_paths(post) =~= pair_paths(pre).push(pairs@[i as int].1@));
                assert(strings_view(failed@) =~= pair_paths(post));
            },
            Some(f) => {
                if is_listed(f, pairs[i].0.as_str()) {
                    failed.push(path);
                    assert(strings_view(failed@) =~= paths_by_outcome(post, f@, true));
                    assert(strings_view(succeeded@) =~= paths_by_outcome(post, f@, false));
                } else {
                    succeeded.push(path);
                    assert(strings_view(failed@) =~= paths_by_outcome(post, f@, true));
                    assert(strings_view(succeeded@) =~= paths_by_outcome(post, f@, false));
                }
            },
        }
        i = i + 1;
    }
    assert(pairs@.subrange(0, pairs@.len() as int) =~= pairs@);
    (succeeded, failed)
}

/// Every path of a batch delete ends up in exactly one of the two lists.
pub proof fn lemma_delete_outcome_covers_all(pairs: Seq<(Seq<char>, Seq<char>)>, failed_list: Seq<String>)
    ensures
        paths_by_outcome(pairs, failed_list, false).len() + paths_by_outcome(pairs, failed_list, true).len()
            == pairs.len(),
    decreases pairs.len(),
{
    if pairs.len() > 0 {
        lemma_delete_outcome_covers_all(pairs.drop_last(), failed_list);
    }
}

/// Probes whether a path exists; implemented by the file-system side.
pub trait PathProbe {
    fn path_exists(&self, path: &str) -> bool;
}

/// Asks the probe whether `path` exists; the answer is one the probe's
/// `path_exists` can give for it.
fn probe_answer<P: PathProbe>(probe: &P, path: &str) -> (r: bool)
    ensures
        call_ensures(P::path_exists, (probe, path), r),
{
    let ask = P::path_exists;
    ask(probe, path)
}

/// The parent directory, or the empty path for a bare name.
pub open spec fn parent_or_empty(p: Seq<char>) -> Seq<char> {
    match spec_path_parent(p) {
        Some(q) => q,
        None => ""@,
    }
}

/// The file stem, or `file` when there is none.
pub open spec fn stem_or_file(p: Seq<char>) -> Seq<char> {
    match spec_path_file_stem(p) {
        Some(s) => s,
        None => "file"@,
    }
}

/// `stem (n).ext`, or `stem (n)` without an extension, beside the original.
pub open spec fn unique_candidate_text(p: Seq<char>, counter: nat) -> Seq<char> {
    let base = stem_or_file(p) + " ("@ + decimal(counter) + ")"@;
    let name = match spec_path_extension(p) {
        Some(ext) => base + "."@ + ext,
        None => base,
    };
    spec_path_join(parent_or_empty(p), name)
}

/// `stem_millis.ext`, or `stem_millis`, beside the original.
pub open spec fn unique_fallback_text(p: Seq<char>, millis: nat) -> Seq<char> {
    let base = stem_or_file(p) + "_"@ + decimal(millis);
    let name = match spec_path_extension(p) {
        Some(ext) => base + "."@ + ext,
        None => base,
    };
    spec_path_join(parent_or_empty(p), name)
}

fn stem_and_parent(original: &str) -> (r: (String, String, Option<String>))
    ensures
        r.0@ == stem_or_file(original@),
        r.1@ == parent_or_empty(original@),
        match r.2 {
            Some(e) => spec_path_extension(original@) == Some(e@),
            None => spec_path_extension(original@) is None,
        },
{
    let stem = match path_file_stem(original) {
        Some(s) => s,
        None => error_text("file"),
    };
    let parent = match path_parent(original) {
        Some(p) => p,
        None => String::new(),
    };
    proof {
        reveal_strlit("");
    }
    assert(parent@ == parent_or_empty(original@));
    (stem, parent, path_extension(original))
}

/// The `counter`-th candidate name for a copy of `original`.
pub fn unique_filename_candidate(original: &str, counter: u64) -> (r: String)
    ensures
        r@ == unique_candidate_text(original@, counter as nat),
{
    let (stem, parent, ext) = stem_and_parent(original);
    let mut name = stem;
    push_str(&mut name, " (");
    push_decimal(&mut name, counter);
    push_str(&mut name, ")");
    match ext {
        Some(e) => {
            push_str(&mut name, ".");
            push_str(&mut name, e.as_str());
        },
        None => {},
    }
    path_join(parent.as_str(), name.as_str())
}

/// The name used when every numbered candidate is taken.
pub fn unique_filename_fallback(original: &str, millis: u64) -> (r: String)
    ensures
        r@ == unique_fallback_text(original@, millis as nat),
{
    let (stem, parent, ext) = stem_and_parent(original);
    let mut name = stem;
    push_str(&mut name, "_");
    push_decimal(&mut name, millis);
    match ext {
        Some(e) => {
            push_str(&mut name, ".");
            push_str(&mut name, e.as_str());
        },
        None => {},
    }
    path_join(parent.as_str(), name.as_str())
}

/// Most numbered candidates tried before the fallback name.
pub const MAX_UNIQUE_CANDIDATES: u64 = 10000;

/// `name` is what the answers of the existence probe pick: `taken[j]` is
/// the answer for candidate `j + 1`. The pick is the least candidate
/// reported free among the first 10000, or the fallback name when all of
/// them were reported taken.
pub open spec fn unique_pick(original: Seq<char>, taken: Seq<bool>, millis: nat, name: Seq<char>) -> bool {
    ||| exists|k: int| #[trigger] numbered_pick(original, taken, k, name)
    ||| taken.len() >= MAX_UNIQUE_CANDIDATES && (forall|j: int| 0 <= j < MAX_UNIQUE_CANDIDATES ==> #[trigger] taken[j])
        && name == unique_fallback_text(original, millis)
}

/// `name` is candidate `k`, the first of the first 10000 candidates the
/// probe reported free.
pub open spec fn numbered_pick(original: Seq<char>, taken: Seq<bool>, k: int, name: Seq<char>) -> bool {
    &&& 1 <= k <= MAX_UNIQUE_CANDIDATES
    &&& k <= taken.len()
    &&& !taken[k - 1]
    &&& forall|j: int| 1 <= j < k ==> #[trigger] taken[j - 1]
    &&& name == unique_candidate_text(original, k as nat)
}

/// The name picked from the probe's answers so far (`taken[j]` for
/// candidate `j + 1`); `None` when every answer so far is "taken" and fewer
/// than 10000 candidates were asked about.
pub fn unique_filename_from_answers(original: &str, taken: &Vec<bool>, millis: u64) -> (r: Option<String>)
    ensures
        match r {
            Some(name) => unique_pick(original@, taken@, millis as nat, name@),
            None => taken@.len() < MAX_UNIQUE_CANDIDATES && forall|j: int|
                0 <= j < taken@.len() ==> #[trigger] taken@[j],
        },
{
    let mut i: usize = 0;
    while i < taken.len() && (i as u64) < MAX_UNIQUE_CANDIDATES
        invariant
            i <= taken@.len(),
            i <= MAX_UNIQUE_CANDIDATES,
            forall|j: int| 0 <= j < i ==> #[trigger] taken@[j],
        decreases taken.len() - i,
    {
        if !taken[i] {
            let name = unique_filename_candidate(original, (i + 1) as u64);
            assert(forall|j: int| 1 <= j < i + 1 ==> #[trigger] taken@[j - 1]) by {
                assert forall|j: int| 1 <= j < i + 1 implies #[trigger] taken@[j - 1] by {
                    assert(taken@[j - 1]);
                }
            }
            assert(numbered_pick(original@, taken@, (i + 1) as int, name@));
            return Some(name);
        }
        i = i + 1;
    }
    if (i as u64) >= MAX_UNIQUE_CANDIDATES {
        let name = unique_filename_fallback(original, millis);
        return Some(name);
    }
    None
}

/// `b` is an answer the probe's `path_exists` can give for candidate `j + 1`.
pub open spec fn probe_answered<P: PathProbe>(probe: &P, original: Seq<char>, j: int, b: bool) -> bool {
    exists|s: &str|
        s@ == unique_candidate_text(original, (j + 1) as nat) && #[trigger] call_ensures(
            P::path_exists,
            (probe, s),
            b,
        )
}

/// `taken` holds answers the probe gave: `taken[j]` for candidate `j + 1`.
pub open spec fn probe_answers<P: PathProbe>(probe: &P, original: Seq<char>, taken: Seq<bool>) -> bool {
    forall|j: int| 0 <= j < taken.len() ==> #[trigger] probe_answered(probe, original, j, taken[j])
}

/// A name for a copy of `original` that does not exist yet: the first free
/// of `name (1).ext` to `name (10000).ext`, else `name_millis.ext`. The
/// result is the pick (see [`unique_pick`]) of answers that `probe` gave for
/// the candidates in order: the least candidate it reported free, every
/// lower one reported taken.
pub fn generate_unique_filename<P: PathProbe>(original: &str, probe: &P, millis: u64) -> (r: String)
    ensures
        exists|taken: Seq<bool>|
            unique_pick(original@, taken, millis as nat, r@) && probe_answers(probe, original@, taken),
{
    let mut taken: Vec<bool> = Vec::new();
    let mut counter: u64 = 1;
    loop
        invariant
            taken@.len() < MAX_UNIQUE_CANDIDATES,
            counter == taken@.len() + 1,
            probe_answers(probe, original@, taken@),
        decreases MAX_UNIQUE_CANDIDATES - taken@.len(),
    {
        let candidate = unique_filename_candidate(original, counter);
        let cs = candidate.as_str();
        let exists = probe_answer(probe, cs);
        let ghost old_taken = taken@;
        taken.push(exists);
        assert(probe_answers(probe, original@, taken@)) by {
            assert forall|j: int| 0 <= j < taken@.len() implies #[trigger] probe_answered(
                probe,
                original@,
                j,
                taken@[j],
            ) by {
                if j < old_taken.len() {
                    assert(taken@[j] == old_taken[j]);
                } else {
                    assert(cs@ == unique_candidate_text(original@, (j + 1) as nat));
                    assert(call_ensures(P::path_exists, (probe, cs), taken@[j]));
                }
            }
        }
        match unique_filename_from_answers(original, &taken, millis) {
            Some(name) => {
                return name;
            },
            None => {},
        }
        counter = counter + 1;
    }
}

/// The name picked from answers the probe gave is one the probe reported
/// free, with every lower-numbered candidate reported taken; only when the
/// probe reported all 10000 candidates taken is it the fallback name.
pub proof fn lemma_unique_name_reported_free<P: PathProbe>(
    probe: &P,
    original: Seq<char>,
    taken: Seq<bool>,
    millis: nat,
    name: Seq<char>,
)
    requires
        unique_pick(original, taken, millis, name),
        probe_answers(probe, original, taken),
    ensures
        (exists|k: int|
            1 <= k <= MAX_UNIQUE_CANDIDATES && name == unique_candidate_text(original, k as nat)
                && #[trigger] probe_answered(probe, original, k - 1, false) && forall|j: int|
                1 <= j < k ==> #[trigger] probe_answered(probe, original, j - 1, true)) || (name
            == unique_fallback_text(original, millis) && forall|j: int|
            0 <= j < MAX_UNIQUE_CANDIDATES ==> #[trigger] probe_answered(probe, original, j, true)),
{
    if exists|k: int| #[trigger] numbered_pick(original, taken, k, name) {
        let k = choose|k: int| #[trigger] numbered_pick(original, taken, k, name);
        assert(probe_answered(probe, original, k - 1, taken[k - 1]));
        assert forall|j: int| 1 <= j < k implies #[trigger] probe_answered(probe, original, j - 1, true) by {
            assert(taken[j - 1]);
            assert(probe_answered(probe, original, j - 1, taken[j - 1]));
        }
    } else {
        assert forall|j: int| 0 <= j < MAX_UNIQUE_CANDIDATES implies #[trigger] probe_answered(
            probe,
            original,
            j,
            true,
        ) by {
            assert(taken[j]);
            assert(probe_answered(probe, original, j, taken[j]));
        }
    }
}

/// Whether a thumbnail may be generated for an inventory entry: not for
/// folders, nor for entries whose metadata carries the disabling key.
pub fn thumbnail_allowed(is_folder: bool, metadata: &Vec<(String, String)>, disabled_key: &str) -> (r: bool)
    ensures
        r == (!is_folder && !(exists|i: int|
            0 <= i < metadata@.len() && (#[trigger] metadata@[i]).0@ == disabled_key@)),
{
    if is_folder {
        return false;
    }
    let mut i: usize = 0;
    while i < metadata.len()
        invariant
            i <= metadata@.len(),
            forall|j: int| 0 <= j < i ==> (#[trigger] metadata@[j]).0@ != disabled_key@,
        decreases metadata.len() - i,
    {
        if str_eq(metadata[i].0.as_str(), disabled_key) {
            return false;
        }
        i = i + 1;
    }
    true
}

} // verus!
