use cloudreve_desktop::inventory::FileMetadata;
use cloudreve_desktop::links::{
    local_path_from_remote_file_event_field, local_path_from_uri_paths, recycle_bin_url, retry_without_entity,
    stored_remote_uri, view_online_url, RemoteEventPath,
};

fn entry_with_metadata(metadata: Vec<(String, String)>) -> FileMetadata {
    FileMetadata {
        id: 1,
        drive_id: "drive".to_string(),
        is_folder: false,
        local_path: "/tmp/sync/sub/f.txt".to_string(),
        created_at: 0,
        updated_at: 0,
        etag: String::new(),
        metadata,
        permissions: String::new(),
        shared: false,
        size: 0,
        conflict_state: None,
    }
}

fn local(r: Result<RemoteEventPath, String>) -> String {
    match r.unwrap() {
        RemoteEventPath::Local(p) => p,
        RemoteEventPath::FullUri(u) => panic!("expected a local path, got uri {u}"),
    }
}

#[test]
fn cr_uri_for_delete_prefers_inventory_remote_uri() {
    let canonical = "cloudreve://share/collab/actual";
    let entry = entry_with_metadata(vec![(
        "sys:desktop_inventory_uri".to_string(),
        canonical.to_string(),
    )]);
    assert_eq!(stored_remote_uri(Some(&entry)), Some(canonical.to_string()));
}

#[test]
fn stored_remote_uri_ignores_missing_or_empty_values() {
    assert_eq!(stored_remote_uri(None), None);
    assert_eq!(stored_remote_uri(Some(&entry_with_metadata(vec![]))), None);
    let empty = entry_with_metadata(vec![("sys:desktop_inventory_uri".to_string(), String::new())]);
    assert_eq!(stored_remote_uri(Some(&empty)), None);
}

#[test]
fn remote_file_event_relative_field_maps_under_sync_root() {
    let p = local(local_path_from_remote_file_event_field("/tmp/cr-sync-root", "/sub/f.txt"));
    assert_eq!(p, "/tmp/cr-sync-root/sub/f.txt");
}

#[test]
fn remote_file_event_full_uri_maps_under_sync_root() {
    let field = "cloudreve://my/mount/sub/f.txt";
    match local_path_from_remote_file_event_field("/tmp/cr-sync-root", field).unwrap() {
        RemoteEventPath::FullUri(u) => assert_eq!(u, field),
        RemoteEventPath::Local(p) => panic!("expected a uri, got path {p}"),
    }
    // The path parts of `cloudreve://my/mount/sub/f.txt` and of the base `cloudreve://my/mount`.
    let p = local_path_from_uri_paths("/tmp/cr-sync-root", "/mount/sub/f.txt", "/mount", '/').unwrap();
    assert_eq!(p, "/tmp/cr-sync-root/sub/f.txt");
}

#[test]
fn remote_file_event_field_is_trimmed_and_cleaned() {
    let p = local(local_path_from_remote_file_event_field("/r", "  //a//b/  "));
    assert_eq!(p, "/r/a/b");
    assert!(local_path_from_remote_file_event_field("/r", "   ").is_err());
}

#[test]
fn uri_paths_outside_base_are_refused() {
    let r = local_path_from_uri_paths("/r", "/other/f.txt", "/mount", '/');
    assert_eq!(r, Err("Path is not under remote base".to_string()));
}

#[test]
fn view_online_links() {
    let u = view_online_url("https://cloud.example.com", "u1", "cloudreve://my/docs", None).unwrap();
    assert_eq!(u, "https://cloud.example.com/home?path=cloudreve%3A%2F%2Fmy%2Fdocs&user_hint=u1");
    let u = view_online_url("https://cloud.example.com/x", "u1", "cloudreve://my", Some("cloudreve://my/a b")).unwrap();
    assert_eq!(
        u,
        "https://cloud.example.com/home?path=cloudreve%3A%2F%2Fmy&open=cloudreve%3A%2F%2Fmy%2Fa+b&user_hint=u1"
    );
    assert!(view_online_url("not a url", "u1", "p", None).is_err());
}

#[test]
fn recycle_bin_link() {
    let u = recycle_bin_url("https://cloud.example.com", "u9").unwrap();
    assert_eq!(u, "https://cloud.example.com/home?user_hint=u9&path=cloudreve%3A%2F%2Ftrash");
}

#[test]
fn retry_only_batch_errors_with_entity() {
    assert!(retry_without_entity(true, true));
    assert!(!retry_without_entity(true, false));
    assert!(!retry_without_entity(false, true));
}

#[test]
fn unicode_white_space_is_trimmed() {
    let p = local(local_path_from_remote_file_event_field("/r", "\u{3000}\t/a/b\u{a0}\u{2028} "));
    assert_eq!(p, "/r/a/b");
    assert!(local_path_from_remote_file_event_field("/r", "\u{85}\u{2003}").is_err());
}
