use cloudreve_desktop::inventory::{local_bytes_match_inventory, local_state_matches_inventory, FileMetadata};
use cloudreve_desktop::platform::{LocalAvailability, VirtualFileState};

fn sample_state() -> VirtualFileState {
    VirtualFileState {
        exists: true,
        is_directory: false,
        file_size: Some(42),
        last_modified_unix: Some(1_700_000_000),
        is_virtual_placeholder: false,
        in_sync: false,
        partially_on_disk: false,
        local_availability: LocalAvailability::Unspecified,
        children_present: false,
    }
}

fn sample_inventory() -> FileMetadata {
    FileMetadata {
        id: 1,
        drive_id: "00000000-0000-0000-0000-000000000000".to_string(),
        is_folder: false,
        local_path: "/tmp/test.txt".to_string(),
        created_at: 1_700_000_000,
        updated_at: 1_700_000_000,
        etag: "etag".to_string(),
        metadata: Vec::new(),
        permissions: String::new(),
        shared: false,
        size: 42,
        conflict_state: None,
    }
}

#[test]
fn matches_inventory_with_exact_timestamp() {
    let state = sample_state();
    let inventory = sample_inventory();
    assert!(local_state_matches_inventory(&state, Some(&inventory)));
}

#[test]
fn matches_inventory_with_one_second_tolerance() {
    let state = sample_state();
    let mut inventory = sample_inventory();
    inventory.updated_at += 1;
    assert!(local_state_matches_inventory(&state, Some(&inventory)));
}

#[test]
fn rejects_inventory_when_timestamp_gap_is_too_large() {
    let state = sample_state();
    let mut inventory = sample_inventory();
    inventory.updated_at += 2;
    assert!(!local_state_matches_inventory(&state, Some(&inventory)));
}

#[test]
fn bytes_match_ignores_mtime_for_none_mode_pull_decision() {
    let state = sample_state();
    let mut inventory = sample_inventory();
    inventory.updated_at += 12345;
    assert!(!local_state_matches_inventory(&state, Some(&inventory)));
    assert!(local_bytes_match_inventory(&state, Some(&inventory)));
}

#[test]
fn bytes_match_rejects_when_file_size_differs() {
    let mut state = sample_state();
    state.file_size = Some(0);
    let inventory = sample_inventory();
    assert!(!local_bytes_match_inventory(&state, Some(&inventory)));
}

#[test]
fn ignores_folder_size_but_requires_folder_shape_match() {
    let mut state = sample_state();
    state.is_directory = true;
    state.file_size = Some(999);

    let mut inventory = sample_inventory();
    inventory.is_folder = true;
    inventory.size = 0;

    assert!(local_state_matches_inventory(&state, Some(&inventory)));
}

#[test]
fn no_inventory_never_matches_and_negative_size_counts_as_zero() {
    let state = sample_state();
    assert!(!local_state_matches_inventory(&state, None));
    assert!(!local_bytes_match_inventory(&state, None));
    let mut s0 = sample_state();
    s0.file_size = Some(0);
    let mut inv = sample_inventory();
    inv.size = -7;
    assert!(local_bytes_match_inventory(&s0, Some(&inv)));
    let mut no_time = sample_state();
    no_time.last_modified_unix = None;
    assert!(!local_state_matches_inventory(&no_time, Some(&sample_inventory())));
    let mut earlier = sample_inventory();
    earlier.updated_at -= 1;
    assert!(local_state_matches_inventory(&state, Some(&earlier)));
}
