use cloudreve_desktop::commands::{
    after_rename_completed_cancel, after_renamed_event_cancel, create_event_uploads, fs_event_handler,
    generate_unique_filename, is_duplicate_task_error, modify_event_action, partition_delete_outcome,
    plan_conflict_resolution, plan_rename, rename_blocked_events, renamed_event_should_cancel,
    thumbnail_allowed, unique_filename_candidate, unique_filename_fallback, unique_filename_from_answers, AfterCancel, ConflictAction,
    ConflictStep, FsEventHandler, ModifyEventAction, PathProbe, RenamePlan,
};
use cloudreve_desktop::fs_events::{CreateKind, EventKind, ModifyKind, RemoveKind, RenameMode};
use cloudreve_desktop::inventory::{ConflictState, FileMetadata};
use cloudreve_desktop::platform::{LocalAvailability, VirtualFileState};

fn file_state() -> VirtualFileState {
    VirtualFileState {
        exists: true,
        is_directory: false,
        file_size: Some(10),
        last_modified_unix: Some(1_700_000_000),
        is_virtual_placeholder: true,
        in_sync: true,
        partially_on_disk: false,
        local_availability: LocalAvailability::Unspecified,
        children_present: false,
    }
}

fn inventory_entry() -> FileMetadata {
    FileMetadata {
        id: 7,
        drive_id: "d".to_string(),
        is_folder: false,
        local_path: "/sync/a.txt".to_string(),
        created_at: 0,
        updated_at: 1_700_000_000,
        etag: "e".to_string(),
        metadata: vec![],
        permissions: String::new(),
        shared: false,
        size: 10,
        conflict_state: None,
    }
}

#[test]
fn conflict_action_parses_exact_names() {
    assert_eq!(ConflictAction::from_str("keep_remote"), Some(ConflictAction::KeepRemote));
    assert_eq!(ConflictAction::from_str("overwrite_remote"), Some(ConflictAction::OverwriteRemote));
    assert_eq!(ConflictAction::from_str("save_as_new"), Some(ConflictAction::SaveAsNew));
    assert_eq!(ConflictAction::from_str("Keep_Remote"), None);
    assert_eq!(ConflictAction::from_str(""), None);
}

#[test]
fn conflict_resolution_refuses_unconflicted_entry() {
    let r = plan_conflict_resolution(ConflictAction::KeepRemote, 5, None);
    assert_eq!(r, Err("file is not conflicted".to_string()));
}

#[test]
fn conflict_resolution_steps_per_action() {
    assert_eq!(
        plan_conflict_resolution(ConflictAction::KeepRemote, 5, Some(ConflictState::Pending)).unwrap(),
        vec![ConflictStep::DeleteLocal, ConflictStep::BlockRemoveEvent, ConflictStep::SyncPathOnly]
    );
    assert_eq!(
        plan_conflict_resolution(ConflictAction::OverwriteRemote, 5, Some(ConflictState::Pending)).unwrap(),
        vec![ConflictStep::MarkOverride, ConflictStep::EnqueueForcedUpload]
    );
    assert_eq!(
        plan_conflict_resolution(ConflictAction::OverwriteRemote, 5, Some(ConflictState::Override)).unwrap(),
        vec![ConflictStep::MarkOverride, ConflictStep::RejectNotPending]
    );
    assert_eq!(
        plan_conflict_resolution(ConflictAction::OverwriteRemote, 0, None).unwrap(),
        vec![ConflictStep::EnqueueForcedUpload]
    );
    assert_eq!(plan_conflict_resolution(ConflictAction::SaveAsNew, 0, None).unwrap().len(), 5);
}

#[test]
fn fs_event_handlers_by_kind() {
    assert_eq!(fs_event_handler(&EventKind::Remove(RemoveKind::File)), FsEventHandler::Delete);
    assert_eq!(fs_event_handler(&EventKind::Create(CreateKind::Folder)), FsEventHandler::Create);
    assert_eq!(
        fs_event_handler(&EventKind::Modify(ModifyKind::Name(RenameMode::Both))),
        FsEventHandler::RenameBoth
    );
    assert_eq!(
        fs_event_handler(&EventKind::Modify(ModifyKind::Name(RenameMode::From))),
        FsEventHandler::Modify
    );
    assert_eq!(fs_event_handler(&EventKind::Modify(ModifyKind::Data)), FsEventHandler::Modify);
    assert_eq!(fs_event_handler(&EventKind::Any), FsEventHandler::Ignore);
    assert_eq!(fs_event_handler(&EventKind::Other), FsEventHandler::Ignore);
}

#[test]
fn modify_event_actions() {
    let mut gone = file_state();
    gone.exists = false;
    assert_eq!(modify_event_action(&gone, false, None), ModifyEventAction::RouteToDelete);

    let mut dir = file_state();
    dir.is_directory = true;
    assert_eq!(modify_event_action(&dir, false, None), ModifyEventAction::SkipDirectory);

    let inv = inventory_entry();
    assert_eq!(modify_event_action(&file_state(), true, Some(&inv)), ModifyEventAction::SkipUnchanged);

    let mut pinned = file_state();
    pinned.local_availability = LocalAvailability::AlwaysLocal;
    pinned.partially_on_disk = true;
    assert_eq!(modify_event_action(&pinned, false, None), ModifyEventAction::Hydrate);

    let mut online = file_state();
    online.local_availability = LocalAvailability::OnlineOnly;
    assert_eq!(modify_event_action(&online, false, None), ModifyEventAction::Dehydrate);

    let mut dirty = file_state();
    dirty.in_sync = false;
    assert_eq!(modify_event_action(&dirty, false, None), ModifyEventAction::EnqueueUpload);
    assert_eq!(modify_event_action(&file_state(), false, None), ModifyEventAction::Nothing);

    let mut changed = file_state();
    changed.file_size = Some(11);
    assert_eq!(modify_event_action(&changed, true, Some(&inv)), ModifyEventAction::EnqueueUpload);
}

#[test]
fn create_event_upload_skips_unchanged_plain_file() {
    let inv = inventory_entry();
    assert!(!create_event_uploads(true, &file_state(), Some(&inv)));
    assert!(create_event_uploads(true, &file_state(), None));
    assert!(create_event_uploads(false, &file_state(), Some(&inv)));
}

#[test]
fn duplicate_task_errors_found_in_chain() {
    let chain = vec!["upload failed".to_string(), "queue: Task already exists here".to_string()];
    assert!(is_duplicate_task_error(&chain));
    let other = vec!["upload failed".to_string(), "task already exists".to_string()];
    assert!(!is_duplicate_task_error(&other));
    assert!(!is_duplicate_task_error(&vec![]));
}

#[test]
fn cancel_follow_ups() {
    assert!(renamed_event_should_cancel(2, false));
    assert!(!renamed_event_should_cancel(1, false));
    assert!(!renamed_event_should_cancel(2, true));
    assert_eq!(after_renamed_event_cancel(0, true), AfterCancel::Nothing);
    assert_eq!(after_renamed_event_cancel(0, false), AfterCancel::SyncFullHierarchy);
    assert_eq!(after_renamed_event_cancel(3, true), AfterCancel::SyncFullHierarchy);
    assert_eq!(after_rename_completed_cancel(0), AfterCancel::MarkInSync);
    assert_eq!(after_rename_completed_cancel(2), AfterCancel::SyncFullHierarchy);
}

#[test]
fn rename_plans() {
    assert_eq!(plan_rename("/sync/a.txt", "/other/a.txt", "/sync", false, false), Ok(RenamePlan::Nothing));
    assert_eq!(plan_rename("/sync/a.txt", "/sync/b.txt", "/sync", true, false), Ok(RenamePlan::Nothing));
    assert_eq!(plan_rename("/other/a.txt", "/sync/a.txt", "/sync", false, false), Ok(RenamePlan::BlockCreate));
    assert_eq!(
        plan_rename("/sync/a.txt", "/sync/b.txt", "/sync", false, false),
        Ok(RenamePlan::RenameInPlace { new_name: "b.txt".to_string() })
    );
    assert_eq!(
        plan_rename("/sync/a.txt", "/sync/sub/a.txt", "/sync", false, false),
        Ok(RenamePlan::Move { destination_dir: "/sync/sub".to_string() })
    );
    assert_eq!(plan_rename("/", "/", "/", false, false), Err("root cannot be moved".to_string()));
}

#[test]
fn rename_blocks_expected_events() {
    let blocked = rename_blocked_events(&RenamePlan::BlockCreate, "/o/a", "/s/a");
    assert_eq!(blocked, vec![(EventKind::Create(CreateKind::Any), "/s/a".to_string())]);
    let blocked = rename_blocked_events(&RenamePlan::RenameInPlace { new_name: "b".to_string() }, "/s/a", "/s/b");
    assert_eq!(blocked, vec![(EventKind::Modify(ModifyKind::Name(RenameMode::From)), "/s/a".to_string())]);
    let blocked = rename_blocked_events(&RenamePlan::Move { destination_dir: "/s/d".to_string() }, "/s/a", "/s/d/a");
    assert_eq!(
        blocked,
        vec![
            (EventKind::Remove(RemoveKind::Any), "/s/a".to_string()),
            (EventKind::Create(CreateKind::Any), "/s/d/a".to_string())
        ]
    );
    assert!(rename_blocked_events(&RenamePlan::Nothing, "/s/a", "/s/b").is_empty());
}

#[test]
fn delete_outcome_partitions_paths() {
    let pairs = vec![
        ("cloudreve://my/a".to_string(), "/s/a".to_string()),
        ("cloudreve://my/b".to_string(), "/s/b".to_string()),
        ("cloudreve://my/c".to_string(), "/s/c".to_string()),
    ];
    let failed = vec!["cloudreve://my/b".to_string()];
    let (deleted, resync) = partition_delete_outcome(&pairs, Some(&failed));
    assert_eq!(deleted, vec!["/s/a".to_string(), "/s/c".to_string()]);
    assert_eq!(resync, vec!["/s/b".to_string()]);
    let (deleted, resync) = partition_delete_outcome(&pairs, None);
    assert!(deleted.is_empty());
    assert_eq!(resync.len(), 3);
}

struct Taken(Vec<String>);

impl PathProbe for Taken {
    fn path_exists(&self, path: &str) -> bool {
        self.0.iter().any(|p| p == path)
    }
}

#[test]
fn unique_filenames() {
    assert_eq!(unique_filename_candidate("/s/report.pdf", 1), "/s/report (1).pdf");
    assert_eq!(unique_filename_candidate("/s/README", 12), "/s/README (12)");
    assert_eq!(unique_filename_fallback("/s/report.pdf", 1234), "/s/report_1234.pdf");
    let probe = Taken(vec!["/s/report (1).pdf".to_string(), "/s/report (2).pdf".to_string()]);
    assert_eq!(generate_unique_filename("/s/report.pdf", &probe, 9), "/s/report (3).pdf");
    let none = Taken(vec![]);
    assert_eq!(generate_unique_filename("/s/report.pdf", &none, 9), "/s/report (1).pdf");
}

#[test]
fn thumbnails_follow_folder_and_metadata() {
    let meta = vec![("thumb:disabled".to_string(), "".to_string())];
    assert!(!thumbnail_allowed(true, &vec![], "thumb:disabled"));
    assert!(!thumbnail_allowed(false, &meta, "thumb:disabled"));
    assert!(thumbnail_allowed(false, &vec![("other".to_string(), "x".to_string())], "thumb:disabled"));
}

#[test]
fn unique_name_is_the_least_reported_free() {
    assert_eq!(unique_filename_from_answers("/s/a.txt", &vec![], 7), None);
    assert_eq!(unique_filename_from_answers("/s/a.txt", &vec![true, true], 7), None);
    assert_eq!(unique_filename_from_answers("/s/a.txt", &vec![false], 7), Some("/s/a (1).txt".to_string()));
    assert_eq!(
        unique_filename_from_answers("/s/a.txt", &vec![true, true, false, false], 7),
        Some("/s/a (3).txt".to_string())
    );
    let all_taken = vec![true; 10000];
    assert_eq!(unique_filename_from_answers("/s/a.txt", &all_taken, 7), Some("/s/a_7.txt".to_string()));
    let mut late = vec![true; 10000];
    late.push(false);
    assert_eq!(unique_filename_from_answers("/s/a.txt", &late, 7), Some("/s/a_7.txt".to_string()));
}
