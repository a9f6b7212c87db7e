use cloudreve_desktop::fs_events::{CreateKind, EventKind, ModifyKind};
use cloudreve_desktop::platform::{LocalAvailability, VirtualFileState};
use cloudreve_desktop::remote::{RemoteFile, RemoteFileType};
use cloudreve_desktop::sync_plan::{SyncAction, SyncMode, UploadReason, WalkReason, WalkRequest, WalkTiming};
use cloudreve_desktop::sync_run::{
    action_steps, group_paths_by_parent, materialization_blockers, remote_delete_actions, split_walks,
    sync_group_start, sync_root_walk, unix_secs_from_epoch_offset, walk_step, ActionStep, GroupStart,
    SyncAggregateError, WalkStep,
};

fn state(exists: bool, is_directory: bool) -> VirtualFileState {
    VirtualFileState {
        exists,
        is_directory,
        file_size: None,
        last_modified_unix: None,
        is_virtual_placeholder: true,
        in_sync: true,
        partially_on_disk: false,
        local_availability: LocalAvailability::Unspecified,
        children_present: false,
    }
}

fn remote(kind: RemoteFileType, size: i64) -> RemoteFile {
    RemoteFile {
        file_type: kind,
        name: "x".to_string(),
        path: "cloudreve://my/x".to_string(),
        size,
        created_at: String::new(),
        updated_at: String::new(),
        primary_entity: None,
        permission: None,
        shared: None,
        metadata: None,
    }
}

fn walk(path: &str, timing: WalkTiming) -> WalkRequest {
    WalkRequest { path: path.to_string(), mode: SyncMode::PathOnly, reason: WalkReason::DiffTriggered, timing }
}

#[test]
fn remote_deletions_skip_missing_paths() {
    let entries = vec![
        ("/s/a".to_string(), state(true, false)),
        ("/s/gone".to_string(), state(false, false)),
        ("/s/d".to_string(), state(true, true)),
    ];
    let actions = remote_delete_actions(&entries);
    assert_eq!(actions.len(), 2);
    assert!(matches!(&actions[0], SyncAction::DeleteLocalAndInventory { path, skip_if_not_empty: false } if path == "/s/a"));
    assert!(matches!(&actions[1], SyncAction::DeleteLocalAndInventory { path, skip_if_not_empty: true } if path == "/s/d"));
}

#[test]
fn walks_split_by_timing_in_order() {
    let walks = vec![
        walk("/a", WalkTiming::Deferred),
        walk("/b", WalkTiming::Immediate),
        walk("/c", WalkTiming::Deferred),
    ];
    let (now, later) = split_walks(&walks);
    assert_eq!(now.iter().map(|w| w.path.as_str()).collect::<Vec<_>>(), vec!["/b"]);
    assert_eq!(later.iter().map(|w| w.path.as_str()).collect::<Vec<_>>(), vec!["/a", "/c"]);
}

#[test]
fn group_start_choices() {
    let root = vec!["/s".to_string()];
    assert_eq!(sync_group_start(&root, "/s", SyncMode::PathOnly, true), GroupStart::WalkSyncRoot);
    let child = vec!["/s/a".to_string()];
    assert_eq!(sync_group_start(&child, "/s", SyncMode::RemoteDelete, true), GroupStart::UsePrefetched);
    assert_eq!(sync_group_start(&child, "/s", SyncMode::RemoteDelete, false), GroupStart::SkipRemote);
    assert_eq!(sync_group_start(&child, "/s", SyncMode::FullHierarchy, false), GroupStart::FetchRemote);
    let w = sync_root_walk("/s", SyncMode::FullHierarchy);
    assert_eq!(w.path, "/s");
    assert_eq!(w.mode, SyncMode::FullHierarchy);
    assert_eq!(w.reason, WalkReason::ModePropagation);
    assert_eq!(w.timing, WalkTiming::Immediate);
}

#[test]
fn blockers_per_mode() {
    assert_eq!(
        materialization_blockers(true, false),
        vec![(EventKind::Create(CreateKind::Any), 2), (EventKind::Modify(ModifyKind::Any), 3)]
    );
    assert_eq!(
        materialization_blockers(false, false),
        vec![(EventKind::Create(CreateKind::Any), 1), (EventKind::Modify(ModifyKind::Any), 1)]
    );
    assert_eq!(materialization_blockers(true, true), vec![(EventKind::Create(CreateKind::Any), 2)]);
}

#[test]
fn steps_of_each_action() {
    let create = SyncAction::CreatePlaceholderAndInventory { path: "/s/a".to_string(), remote: remote(RemoteFileType::File, 5) };
    assert_eq!(
        action_steps(&create, true),
        vec![
            ActionStep::BlockCreateEvents { count: 2 },
            ActionStep::BlockModifyEvents { count: 3 },
            ActionStep::CommitRemote { invalidate_all: false },
            ActionStep::CancelTasks,
            ActionStep::EnqueueDownload,
        ]
    );
    let folder = SyncAction::UpdateInventoryFromRemote {
        path: "/s/d".to_string(),
        remote: remote(RemoteFileType::Folder, 0),
        invalidate_all: true,
    };
    assert_eq!(
        action_steps(&folder, false),
        vec![ActionStep::BlockCreateEvents { count: 1 }, ActionStep::CommitRemote { invalidate_all: true }]
    );
    let upload = SyncAction::QueueUpload { path: "/s/a".to_string(), reason: UploadReason::RemoteMissing };
    assert_eq!(action_steps(&upload, false), vec![ActionStep::EnqueueUpload]);
    let delete = SyncAction::DeleteLocalAndInventory { path: "/s/d".to_string(), skip_if_not_empty: true };
    assert_eq!(
        action_steps(&delete, false),
        vec![ActionStep::StopIfDirectoryNotEmpty, ActionStep::DeleteLocalAndInventory, ActionStep::BlockRemoveEvent]
    );
    let rename = SyncAction::RenameLocalWithConflict { original: "/a".to_string(), renamed: "/b".to_string() };
    assert_eq!(action_steps(&rename, false), vec![ActionStep::CancelTasks, ActionStep::RenameLocal]);
    let folder_up = SyncAction::CreateRemoteFolderIfExist { path: "/s/d".to_string() };
    assert_eq!(action_steps(&folder_up, false), vec![ActionStep::StopIfMissing, ActionStep::EnqueueUpload]);
}

#[test]
fn aggregate_error_report() {
    let ok = SyncAggregateError::new("sync".to_string());
    assert!(ok.is_empty());
    assert_eq!(ok.into_result(), Ok(()));
    let mut err = SyncAggregateError::new("sync group".to_string());
    err.push("/s/a".to_string(), "denied".to_string());
    err.push("/s/b".to_string(), "timeout".to_string());
    assert!(!err.is_empty());
    let expected = "sync group encountered 2 error(s):\n- /s/a: denied\n- /s/b: timeout\n";
    assert_eq!(err.to_message(), expected);
    assert_eq!(err.into_result(), Err(expected.to_string()));
}

#[test]
fn paths_grouped_by_parent_in_first_seen_order() {
    let paths = vec!["/s/a/1".to_string(), "/s/b/2".to_string(), "/s/a/3".to_string()];
    let groups = group_paths_by_parent(&paths);
    assert_eq!(
        groups,
        vec![
            ("/s/a".to_string(), vec!["/s/a/1".to_string(), "/s/a/3".to_string()]),
            ("/s/b".to_string(), vec!["/s/b/2".to_string()]),
        ]
    );
    let root = group_paths_by_parent(&vec!["/".to_string()]);
    assert_eq!(root, vec![("/".to_string(), vec!["/".to_string()])]);
}

#[test]
fn walk_steps() {
    assert_eq!(walk_step(0, 4), WalkStep::Skip);
    assert_eq!(walk_step(2, 0), WalkStep::SyncChildren { with_prefetched: false });
    assert_eq!(walk_step(2, 1), WalkStep::SyncChildren { with_prefetched: true });
}

#[test]
fn epoch_offsets() {
    assert_eq!(unix_secs_from_epoch_offset(false, 1_700_000_000), Some(1_700_000_000));
    assert_eq!(unix_secs_from_epoch_offset(true, 60), Some(-60));
}
