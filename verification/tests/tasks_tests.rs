use std::sync::Arc;

use cloudreve_desktop::platform::VirtualFileMode;
use cloudreve_desktop::runtime::{is_real_file_sync_mode, platform_provider, set_platform_provider, PlatformSlot};
use cloudreve_desktop::tasks::{dedupe_finished_tasks_keep_newest_first, recent_finished_positions, TaskKey, RECENT_TASK_LIMIT};

fn key(drive: &str, path: &str, kind: &str) -> TaskKey {
    TaskKey { drive_id: drive.to_string(), local_path: path.to_string(), task_type: kind.to_string() }
}

#[test]
fn finished_tasks_deduplicated_newest_first() {
    let tasks = vec![
        key("d1", "/a", "upload"),
        key("d1", "/a", "download"),
        key("d1", "/a", "upload"),
        key("d2", "/a", "upload"),
        key("d1", "/b", "upload"),
        key("d1", "/b", "upload"),
    ];
    assert_eq!(dedupe_finished_tasks_keep_newest_first(&tasks), vec![0, 1, 3, 4]);
    assert!(dedupe_finished_tasks_keep_newest_first(&vec![]).is_empty());
}

#[test]
fn recent_finished_tasks_are_capped() {
    let tasks: Vec<TaskKey> = (0..40).map(|i| key("d", &format!("/f{}", i % 30), "upload")).collect();
    let recent = recent_finished_positions(&tasks);
    assert_eq!(RECENT_TASK_LIMIT, 25);
    assert_eq!(recent, (0..25).collect::<Vec<usize>>());
    let few = vec![key("d", "/x", "upload"), key("d", "/x", "upload")];
    assert_eq!(recent_finished_positions(&few), vec![0]);
}

#[test]
fn platform_slot_set_once() {
    let mut slot: PlatformSlot<u32> = PlatformSlot::new();
    assert_eq!(platform_provider(&slot).err(), Some("platform provider is not initialized".to_string()));
    assert_eq!(set_platform_provider(&mut slot, Arc::new(7)), Ok(()));
    assert_eq!(
        set_platform_provider(&mut slot, Arc::new(8)),
        Err("platform provider already initialized".to_string())
    );
    assert_eq!(*platform_provider(&slot).unwrap(), 7);
}

#[test]
fn real_file_mode_only_for_plain_platforms() {
    assert!(is_real_file_sync_mode(Some(VirtualFileMode::Plain)));
    assert!(!is_real_file_sync_mode(Some(VirtualFileMode::Placeholder)));
    assert!(!is_real_file_sync_mode(Some(VirtualFileMode::FileProvider)));
    assert!(!is_real_file_sync_mode(None));
}
