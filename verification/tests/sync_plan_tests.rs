use cloudreve_desktop::inventory::{ConflictState, FileMetadata};
use cloudreve_desktop::platform::{LocalAvailability, VirtualFileState};
use cloudreve_desktop::remote::{RemoteFile, RemoteFileType};
use cloudreve_desktop::sync_plan::{
    build_sync_plan, build_sync_plan_now, conflict_path_at, find_entry, generate_conflict_path, next_child_mode,
    skip_none_mode_materialize_zero_byte_remote_file, SyncAction, SyncMode, SyncPlan, UploadReason,
    WalkReason, WalkTiming,
};

const STAMP: &str = "20240102030405";
const UPDATED: &str = "2024-01-01T00:00:00Z";
const UPDATED_SECS: i64 = 1_704_067_200;

fn remote(kind: RemoteFileType, name: &str, size: i64, etag: &str) -> RemoteFile {
    RemoteFile {
        file_type: kind,
        name: name.to_string(),
        path: format!("cloudreve://my/{name}"),
        size,
        created_at: UPDATED.to_string(),
        updated_at: UPDATED.to_string(),
        primary_entity: Some(etag.to_string()),
        permission: None,
        shared: None,
        metadata: None,
    }
}

fn local_file(size: u64) -> VirtualFileState {
    VirtualFileState {
        exists: true,
        is_directory: false,
        file_size: Some(size),
        last_modified_unix: Some(UPDATED_SECS),
        is_virtual_placeholder: true,
        in_sync: true,
        partially_on_disk: false,
        local_availability: LocalAvailability::Unspecified,
        children_present: false,
    }
}

fn local_dir(children: bool) -> VirtualFileState {
    VirtualFileState { is_directory: true, file_size: None, children_present: children, ..local_file(0) }
}

fn inventory(path: &str, is_folder: bool, size: i64, etag: &str) -> FileMetadata {
    FileMetadata {
        id: 1,
        drive_id: "d".to_string(),
        is_folder,
        local_path: path.to_string(),
        created_at: UPDATED_SECS,
        updated_at: UPDATED_SECS,
        etag: etag.to_string(),
        metadata: vec![],
        permissions: String::new(),
        shared: false,
        size,
        conflict_state: None,
    }
}

fn plan_one(
    mode: SyncMode,
    path: &str,
    r: Option<RemoteFile>,
    l: Option<VirtualFileState>,
    inv: Option<FileMetadata>,
    real_file_mode: bool,
) -> SyncPlan {
    let paths = vec![path.to_string()];
    let remotes: Vec<(String, RemoteFile)> = r.into_iter().map(|x| (path.to_string(), x)).collect();
    let locals: Vec<(String, VirtualFileState)> = l.into_iter().map(|x| (path.to_string(), x)).collect();
    let invs: Vec<(String, FileMetadata)> = inv.into_iter().map(|x| (path.to_string(), x)).collect();
    build_sync_plan(mode, &paths, &remotes, &locals, &invs, real_file_mode, STAMP)
}

#[test]
fn child_modes() {
    assert_eq!(next_child_mode(SyncMode::FullHierarchy), SyncMode::FullHierarchy);
    assert_eq!(next_child_mode(SyncMode::PathAndFirstLayer), SyncMode::PathOnly);
    assert_eq!(next_child_mode(SyncMode::RemoteDelete), SyncMode::PathOnly);
    assert_eq!(next_child_mode(SyncMode::PathOnly), SyncMode::PathOnly);
}

#[test]
fn conflict_paths_keep_extension() {
    assert_eq!(conflict_path_at("/s/a.txt", STAMP), "/s/__conflict__20240102030405_a.txt");
    assert_eq!(conflict_path_at("/s/dir", "X"), "/s/__conflict__X_dir");
}

#[test]
fn zero_byte_remote_skipped_only_in_real_file_mode() {
    let empty = remote(RemoteFileType::File, "a.txt", 0, "e");
    assert!(skip_none_mode_materialize_zero_byte_remote_file(true, &empty));
    assert!(!skip_none_mode_materialize_zero_byte_remote_file(false, &empty));
    let folder = remote(RemoteFileType::Folder, "d", 0, "e");
    assert!(!skip_none_mode_materialize_zero_byte_remote_file(true, &folder));
}

#[test]
fn find_entry_returns_first_match() {
    let entries = vec![("a".to_string(), 1), ("b".to_string(), 2), ("a".to_string(), 3)];
    assert_eq!(find_entry(&entries, "a"), Some(0));
    assert_eq!(find_entry(&entries, "b"), Some(1));
    assert_eq!(find_entry(&entries, "c"), None);
}

#[test]
fn remote_only_creates_placeholder() {
    let plan = plan_one(SyncMode::PathOnly, "/s/a.txt", Some(remote(RemoteFileType::File, "a.txt", 5, "e")), None, None, false);
    assert_eq!(plan.actions.len(), 1);
    assert!(matches!(&plan.actions[0], SyncAction::CreatePlaceholderAndInventory { path, .. } if path == "/s/a.txt"));
    assert!(plan.walk_requests.is_empty());
    let plan = plan_one(SyncMode::PathOnly, "/s/a.txt", Some(remote(RemoteFileType::File, "a.txt", 0, "e")), None, None, true);
    assert!(plan.actions.is_empty());
}

#[test]
fn local_only_entries() {
    let plan = plan_one(SyncMode::PathOnly, "/s/a.txt", None, Some(local_file(3)), None, false);
    assert!(matches!(&plan.actions[0], SyncAction::DeleteLocalAndInventory { skip_if_not_empty: false, .. }));

    let mut dirty = local_file(3);
    dirty.is_virtual_placeholder = false;
    let plan = plan_one(SyncMode::PathOnly, "/s/a.txt", None, Some(dirty), None, false);
    assert!(matches!(&plan.actions[0], SyncAction::QueueUpload { reason: UploadReason::RemoteMissing, .. }));

    let plan = plan_one(SyncMode::RemoteDelete, "/s/d", None, Some(local_dir(true)), None, false);
    assert_eq!(plan.actions.len(), 1);
    assert!(matches!(&plan.actions[0], SyncAction::DeleteLocalAndInventory { skip_if_not_empty: true, .. }));

    let plan = plan_one(SyncMode::FullHierarchy, "/s/d", None, Some(local_dir(true)), None, false);
    assert_eq!(plan.actions.len(), 2);
    assert!(matches!(&plan.actions[0], SyncAction::DeleteLocalAndInventory { skip_if_not_empty: true, .. }));
    assert!(matches!(&plan.actions[1], SyncAction::CreateRemoteFolderIfExist { .. }));
    assert_eq!(plan.walk_requests.len(), 1);
    let w = &plan.walk_requests[0];
    assert_eq!(w.path, "/s/d");
    assert_eq!(w.mode, SyncMode::FullHierarchy);
    assert_eq!(w.reason, WalkReason::ModePropagation);
    assert_eq!(w.timing, WalkTiming::Immediate);

    let plan = plan_one(SyncMode::PathOnly, "/s/d", None, Some(local_dir(false)), None, false);
    assert!(matches!(&plan.actions[0], SyncAction::DeleteLocalAndInventory { skip_if_not_empty: false, .. }));
    assert!(plan.walk_requests.is_empty());
}

#[test]
fn type_mismatch_renames_local_aside() {
    let plan = plan_one(
        SyncMode::PathOnly,
        "/s/a.txt",
        Some(remote(RemoteFileType::Folder, "a.txt", 0, "e")),
        Some(local_file(3)),
        None,
        false,
    );
    assert_eq!(plan.actions.len(), 2);
    match &plan.actions[0] {
        SyncAction::RenameLocalWithConflict { original, renamed } => {
            assert_eq!(original, "/s/a.txt");
            assert_eq!(renamed, "/s/__conflict__20240102030405_a.txt");
        }
        other => panic!("unexpected {other:?}"),
    }
    assert!(matches!(&plan.actions[1], SyncAction::CreatePlaceholderAndInventory { .. }));
}

#[test]
fn matching_file_needs_nothing_and_stale_one_updates() {
    let r = remote(RemoteFileType::File, "a.txt", 3, "e1");
    let plan = plan_one(SyncMode::PathOnly, "/s/a.txt", Some(r), Some(local_file(3)), Some(inventory("/s/a.txt", false, 3, "e1")), false);
    assert!(plan.actions.is_empty());

    let r = remote(RemoteFileType::File, "a.txt", 3, "e2");
    let plan = plan_one(SyncMode::PathOnly, "/s/a.txt", Some(r), Some(local_file(3)), Some(inventory("/s/a.txt", false, 3, "e1")), false);
    assert!(matches!(&plan.actions[0], SyncAction::UpdateInventoryFromRemote { invalidate_all: true, .. }));

    let mut pinned = local_file(3);
    pinned.local_availability = LocalAvailability::AlwaysLocal;
    let r = remote(RemoteFileType::File, "a.txt", 3, "e2");
    let plan = plan_one(SyncMode::PathOnly, "/s/a.txt", Some(r), Some(pinned), Some(inventory("/s/a.txt", false, 3, "e1")), false);
    assert!(matches!(&plan.actions[0], SyncAction::QueueDownload { .. }));
}

#[test]
fn pending_conflict_holds_back_upload() {
    let mut dirty = local_file(3);
    dirty.in_sync = false;
    let mut inv = inventory("/s/a.txt", false, 3, "e1");
    inv.conflict_state = Some(ConflictState::Pending);
    let r = remote(RemoteFileType::File, "a.txt", 3, "e2");
    let plan = plan_one(SyncMode::PathOnly, "/s/a.txt", Some(r), Some(dirty), Some(inv), false);
    assert!(plan.actions.is_empty());
}

#[test]
fn remote_folder_change_updates_and_walks() {
    let r = remote(RemoteFileType::Folder, "d", 0, "e2");
    let plan = plan_one(SyncMode::PathAndFirstLayer, "/s/d", Some(r), Some(local_dir(true)), Some(inventory("/s/d", true, 0, "e1")), false);
    assert!(matches!(&plan.actions[0], SyncAction::UpdateInventoryFromRemote { invalidate_all: false, .. }));
    assert_eq!(plan.walk_requests.len(), 1);
    assert_eq!(plan.walk_requests[0].mode, SyncMode::PathOnly);
    assert_eq!(plan.walk_requests[0].timing, WalkTiming::Deferred);
}

#[test]
fn walk_requests_are_not_repeated() {
    let mut plan = SyncPlan::new();
    plan.insert_walk_request("/s/d".to_string(), SyncMode::PathOnly, WalkReason::DiffTriggered, WalkTiming::Deferred);
    plan.insert_walk_request("/s/d".to_string(), SyncMode::PathOnly, WalkReason::ModePropagation, WalkTiming::Immediate);
    plan.insert_walk_request("/s/d".to_string(), SyncMode::FullHierarchy, WalkReason::ModePropagation, WalkTiming::Immediate);
    assert_eq!(plan.walk_requests.len(), 2);
    assert_eq!(plan.walk_requests[0].reason, WalkReason::DiffTriggered);
}

#[test]
fn real_file_mode_pulls_larger_remote() {
    let r = remote(RemoteFileType::File, "a.txt", 10, "e2");
    let mut plain = local_file(3);
    plain.is_virtual_placeholder = false;
    plain.last_modified_unix = Some(UPDATED_SECS + 100);
    let plan = plan_one(SyncMode::PathOnly, "/s/a.txt", Some(r), Some(plain), Some(inventory("/s/a.txt", false, 3, "e1")), true);
    assert!(matches!(&plan.actions[0], SyncAction::QueueDownload { .. }));
}

#[test]
fn clock_stamped_conflict_names() {
    let p = generate_conflict_path("/s/a.txt");
    assert!(p.starts_with("/s/__conflict__"));
    assert!(p.ends_with("_a.txt"));
    let stamp = &p["/s/__conflict__".len()..p.len() - "_a.txt".len()];
    assert_eq!(stamp.len(), 14);
    assert!(stamp.chars().all(|c| c.is_ascii_digit()));
    let paths = vec!["/s/a.txt".to_string()];
    let remotes = vec![("/s/a.txt".to_string(), remote(RemoteFileType::Folder, "a.txt", 0, "e"))];
    let locals = vec![("/s/a.txt".to_string(), local_file(3))];
    let plan = build_sync_plan_now(SyncMode::PathOnly, &paths, &remotes, &locals, &vec![], false);
    match &plan.actions[0] {
        SyncAction::RenameLocalWithConflict { renamed, .. } => assert!(renamed.starts_with("/s/__conflict__")),
        other => panic!("unexpected {other:?}"),
    }
}

#[test]
fn absent_path_needs_nothing() {
    let plan = plan_one(SyncMode::FullHierarchy, "/s/ghost", None, None, None, false);
    assert!(plan.actions.is_empty());
    assert!(plan.walk_requests.is_empty());
    let mut gone = local_file(0);
    gone.exists = false;
    let plan = plan_one(SyncMode::RemoteDelete, "/s/ghost", None, Some(gone), None, true);
    assert!(plan.actions.is_empty());
}
