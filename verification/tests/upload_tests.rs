use cloudreve_desktop::inventory::{ConflictState, FileMetadata};
use cloudreve_desktop::platform::{LocalAvailability, VirtualFileMode, VirtualFileState};
use cloudreve_desktop::remote::{RemoteFile, RemoteFileType};
use cloudreve_desktop::upload::{
    conflict_inventory_id, create_request, is_api_error_code_in_chain, local_matches_remote_object_existed,
    resolve_upload_failure, upload_plan, upload_route, AlignOutcome, UploadFailure, UploadRoute, OBJECT_EXISTED,
    STALE_VERSION,
};

fn local(size: Option<u64>, mtime: Option<i64>) -> VirtualFileState {
    VirtualFileState {
        exists: true,
        is_directory: false,
        file_size: size,
        last_modified_unix: mtime,
        is_virtual_placeholder: false,
        in_sync: false,
        partially_on_disk: false,
        local_availability: LocalAvailability::Unspecified,
        children_present: false,
    }
}

fn remote(size: i64, updated_at: &str) -> RemoteFile {
    RemoteFile {
        file_type: RemoteFileType::File,
        name: "a.txt".to_string(),
        path: "cloudreve://my/a.txt".to_string(),
        size,
        created_at: updated_at.to_string(),
        updated_at: updated_at.to_string(),
        primary_entity: None,
        permission: None,
        shared: None,
        metadata: None,
    }
}

fn meta(etag: &str, conflict: Option<ConflictState>) -> FileMetadata {
    FileMetadata {
        id: 42,
        drive_id: "d".to_string(),
        is_folder: false,
        local_path: "/s/a.txt".to_string(),
        created_at: 0,
        updated_at: 0,
        etag: etag.to_string(),
        metadata: vec![],
        permissions: String::new(),
        shared: false,
        size: 3,
        conflict_state: conflict,
    }
}

#[test]
fn api_codes_found_in_chain() {
    assert!(is_api_error_code_in_chain(&vec![None, Some(OBJECT_EXISTED)], OBJECT_EXISTED));
    assert!(!is_api_error_code_in_chain(&vec![None, Some(STALE_VERSION)], OBJECT_EXISTED));
    assert!(!is_api_error_code_in_chain(&vec![], STALE_VERSION));
    assert_eq!(OBJECT_EXISTED, 40004);
    assert_eq!(STALE_VERSION, 40076);
}

#[test]
fn existing_object_compared_with_local() {
    // 2024-01-01T00:00:00Z is 1_704_067_200.
    let r = remote(3, "2024-01-01T00:00:00Z");
    assert!(local_matches_remote_object_existed(&r, &local(Some(3), Some(1_704_067_202))));
    assert!(local_matches_remote_object_existed(&r, &local(Some(3), Some(1_704_067_198))));
    assert!(!local_matches_remote_object_existed(&r, &local(Some(3), Some(1_704_067_203))));
    assert!(!local_matches_remote_object_existed(&r, &local(Some(4), Some(1_704_067_200))));
    assert!(!local_matches_remote_object_existed(&r, &local(None, Some(1_704_067_200))));
    assert!(local_matches_remote_object_existed(&r, &local(Some(3), None)));
    let odd_time = remote(3, "2024-01-01 00:00:00");
    assert!(local_matches_remote_object_existed(&odd_time, &local(Some(3), Some(0))));
    let mut dir = local(Some(3), None);
    dir.is_directory = true;
    assert!(!local_matches_remote_object_existed(&r, &dir));
    let mut gone = local(Some(3), None);
    gone.exists = false;
    assert!(!local_matches_remote_object_existed(&r, &gone));
}

#[test]
fn upload_routes() {
    let mut gone = local(Some(3), None);
    gone.exists = false;
    assert_eq!(upload_route(&gone, None, false, false), UploadRoute::SkipMissing);
    let mut synced = local(Some(3), None);
    synced.in_sync = true;
    assert_eq!(upload_route(&synced, Some(VirtualFileMode::Placeholder), false, true), UploadRoute::SkipInSync);
    assert_eq!(upload_route(&synced, Some(VirtualFileMode::Plain), false, true), UploadRoute::UploadContent);
    assert_eq!(upload_route(&synced, None, false, true), UploadRoute::UploadContent);
    let mut dir = local(None, None);
    dir.is_directory = true;
    assert_eq!(upload_route(&dir, None, false, false), UploadRoute::CreateEmptyOrFolder);
    assert_eq!(upload_route(&local(Some(0), None), None, false, false), UploadRoute::CreateEmptyOrFolder);
    assert_eq!(upload_route(&local(Some(0), None), None, false, true), UploadRoute::ClearContent);
    assert_eq!(upload_route(&local(Some(0), None), None, true, true), UploadRoute::UploadContent);
    assert_eq!(upload_route(&local(Some(5), None), None, false, false), UploadRoute::UploadContent);
}

#[test]
fn upload_parameters() {
    let p = upload_plan(&local(Some(3), Some(1_700_000_000)), Some(&meta("v1", None)), false);
    assert_eq!(p.file_size, 3);
    assert_eq!(p.last_modified_ms, Some(1_700_000_000_000));
    assert!(p.overwrite);
    assert_eq!(p.previous_version, "v1");
    let p = upload_plan(&local(None, Some(i64::MAX / 10)), Some(&meta("v1", Some(ConflictState::Override))), false);
    assert_eq!(p.file_size, 0);
    assert_eq!(p.last_modified_ms, Some(i64::MAX));
    assert_eq!(p.previous_version, "");
    let p = upload_plan(&local(Some(1), Some(i64::MIN / 10)), None, false);
    assert_eq!(p.last_modified_ms, Some(i64::MIN));
    assert!(!p.overwrite);
    assert_eq!(p.previous_version, "");
    assert!(upload_plan(&local(Some(1), None), None, true).overwrite);
}

#[test]
fn create_requests() {
    assert_eq!(create_request(true), ("folder".to_string(), false));
    assert_eq!(create_request(false), ("file".to_string(), true));
}

#[test]
fn upload_failures() {
    let ok = UploadFailure { succeeded: true, mark_conflict: false, set_sync_error: false, mismatch_error: false };
    assert_eq!(resolve_upload_failure(AlignOutcome::Aligned, true), ok);
    assert_eq!(
        resolve_upload_failure(AlignOutcome::Mismatch, false),
        UploadFailure { succeeded: false, mark_conflict: true, set_sync_error: true, mismatch_error: true }
    );
    assert_eq!(
        resolve_upload_failure(AlignOutcome::NotTried, true),
        UploadFailure { succeeded: false, mark_conflict: true, set_sync_error: true, mismatch_error: false }
    );
    assert_eq!(
        resolve_upload_failure(AlignOutcome::Failed, false),
        UploadFailure { succeeded: false, mark_conflict: false, set_sync_error: true, mismatch_error: false }
    );
    assert_eq!(conflict_inventory_id(Some(&meta("v", None))), 42);
    assert_eq!(conflict_inventory_id(None), 0);
}
