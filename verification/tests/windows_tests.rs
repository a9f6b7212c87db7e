use cloudreve_desktop::platform::{
    LocalAvailability, MountRegistrationContext, MountRegistrationCustomState, PlatformKind, VirtualFileMetadata,
    VirtualFileMode, VirtualFileState, VirtualPlaceholderSpec,
};
use cloudreve_desktop::windows::{
    local_file_info_to_state, open_retry_delay_ms, pin_state_for, sync_root_provider_name, sync_root_registration,
    upsert_shell_change, windows_upsert_plan, ConvertStep, OpenMode, PinState, ShellChange, WindowsLocalInfo,
    WindowsPlatformProvider, WindowsUpsertPlan,
};

fn spec(dehydrate_on_update: bool) -> VirtualPlaceholderSpec {
    VirtualPlaceholderSpec {
        target_path: "C:\\s\\a.txt".to_string(),
        sync_root: "C:\\s".to_string(),
        is_directory: false,
        metadata: VirtualFileMetadata { size: 1, created_unix: 0, modified_unix: 0 },
        identity_blob: vec![1, 2],
        mark_in_sync: true,
        overwrite: false,
        dehydrate_on_update,
        has_no_children: false,
    }
}

fn local(exists: bool, is_directory: bool, placeholder: bool) -> VirtualFileState {
    VirtualFileState {
        exists,
        is_directory,
        file_size: None,
        last_modified_unix: None,
        is_virtual_placeholder: placeholder,
        in_sync: false,
        partially_on_disk: false,
        local_availability: LocalAvailability::Unspecified,
        children_present: false,
    }
}

#[test]
fn provider_capabilities() {
    let p = WindowsPlatformProvider::new();
    assert_eq!(p.mode(), VirtualFileMode::Placeholder);
    let caps = p.capabilities(Ok(true));
    assert_eq!(caps.platform, PlatformKind::Windows);
    assert!(caps.sync_root_registration);
    assert!(caps.auto_start);
    assert!(caps.desktop_integration.notifications && caps.desktop_integration.status_ui);
    assert!(!p.capabilities(Err("no".to_string())).sync_root_registration);
    assert!(!p.capabilities(Ok(false)).sync_root_registration);
    assert!(p.unregister_needed("m1"));
    assert!(!p.unregister_needed(""));
}

#[test]
fn provider_name_hashes_host_and_path() {
    let name = sync_root_provider_name("https://cloud.example.com/", "C:\\Users\\me\\Cloudreve").unwrap();
    assert_eq!(name, "cloudreve124c409ed31f33ec");
    let same_host = sync_root_provider_name("http://cloud.example.com:8080/x", "C:\\Users\\me\\Cloudreve").unwrap();
    assert_eq!(same_host, name);
    assert_ne!(sync_root_provider_name("https://cloud.example.com/", "D:\\other").unwrap(), name);
    assert_eq!(
        sync_root_provider_name("unix:/run/socket", "C:\\s"),
        Err("Invalid URL: no host found".to_string())
    );
    assert!(sync_root_provider_name("not a url", "C:\\s").is_err());
}

#[test]
fn registration_record() {
    let ctx = MountRegistrationContext {
        mount_id: "m1".to_string(),
        display_name: "My drive".to_string(),
        sync_path: "C:\\s".to_string(),
        icon_path: Some("C:\\App\\icon.ico".to_string()),
        recycle_bin_url: Some("https://c/home?path=trash".to_string()),
        custom_states: vec![
            MountRegistrationCustomState { id: 1, label: "shared".to_string() },
            MountRegistrationCustomState { id: 2, label: "noAccess".to_string() },
        ],
    };
    let r = sync_root_registration(&ctx);
    assert_eq!(r.display_name, "My drive");
    assert_eq!(r.icon.as_deref(), Some("C:\\App\\icon.ico,0"));
    assert_eq!(r.version, "1.0.0");
    assert_eq!(r.recycle_bin_url.as_deref(), Some("https://c/home?path=trash"));
    assert_eq!(r.path, "C:\\s");
    assert_eq!(r.custom_states, vec![("shared".to_string(), 1), ("noAccess".to_string(), 2)]);
    let bare = MountRegistrationContext { icon_path: None, recycle_bin_url: None, custom_states: vec![], ..ctx };
    let r = sync_root_registration(&bare);
    assert_eq!(r.icon, None);
    assert!(r.custom_states.is_empty());
}

#[test]
fn upsert_plans() {
    let mut create = spec(false);
    create.target_path = "/s/d/a.txt".to_string();
    match windows_upsert_plan(&create, &local(false, false, false)).unwrap() {
        WindowsUpsertPlan::CreateNew { parent, file_name, metadata, is_directory, blob, mark_in_sync, overwrite, shell_change } => {
            assert_eq!(file_name, "a.txt");
            assert_eq!(parent, "/s/d");
            assert_eq!(metadata, VirtualFileMetadata { size: 1, created_unix: 0, modified_unix: 0 });
            assert!(!is_directory);
            assert_eq!(blob, vec![1, 2]);
            assert!(mark_in_sync);
            assert!(!overwrite);
            assert_eq!(shell_change, ShellChange::Create);
        }
        other => panic!("unexpected {other:?}"),
    }
    match windows_upsert_plan(&spec(false), &local(true, false, false)).unwrap() {
        WindowsUpsertPlan::UpdateExisting { convert, update_with, mark_in_sync, dehydrate, has_no_children, blob, .. } => {
            assert_eq!(convert, Some(ConvertStep { open_with: OpenMode::Win32File, mark_in_sync: true }));
            assert_eq!(update_with, OpenMode::Win32File);
            assert!(mark_in_sync && !dehydrate && !has_no_children);
            assert_eq!(blob, vec![1, 2]);
        }
        other => panic!("unexpected {other:?}"),
    }
    match windows_upsert_plan(&spec(false), &local(true, true, true)).unwrap() {
        WindowsUpsertPlan::UpdateExisting { convert, update_with, .. } => {
            assert_eq!(convert, None);
            assert_eq!(update_with, OpenMode::Directory);
        }
        other => panic!("unexpected {other:?}"),
    }
    let mut dehydrate = spec(true);
    dehydrate.has_no_children = true;
    dehydrate.is_directory = true;
    match windows_upsert_plan(&dehydrate, &local(true, false, true)).unwrap() {
        WindowsUpsertPlan::UpdateExisting { convert, update_with, dehydrate, has_no_children, shell_change, .. } => {
            assert_eq!(convert, None);
            assert_eq!(update_with, OpenMode::ExclusiveWrite);
            assert!(dehydrate && has_no_children);
            assert_eq!(shell_change, ShellChange::MakeDirectory);
        }
        other => panic!("unexpected {other:?}"),
    }
    let mut rootless = spec(false);
    rootless.target_path = "/".to_string();
    assert_eq!(windows_upsert_plan(&rootless, &local(false, false, false)).err(), Some("failed to get file name".to_string()));
    assert_eq!(upsert_shell_change(true), ShellChange::MakeDirectory);
    assert_eq!(upsert_shell_change(false), ShellChange::Create);
}

#[test]
fn pin_states_roundtrip() {
    assert_eq!(pin_state_for(LocalAvailability::AlwaysLocal), Some(PinState::Pinned));
    assert_eq!(pin_state_for(LocalAvailability::OnlineOnly), Some(PinState::Unpinned));
    assert_eq!(pin_state_for(LocalAvailability::Unspecified), None);
    for availability in [LocalAvailability::AlwaysLocal, LocalAvailability::OnlineOnly] {
        let pin = pin_state_for(availability).unwrap();
        let info = WindowsLocalInfo {
            exists: true,
            is_directory: false,
            file_size: Some(3),
            last_modified_unix: Some(10),
            is_placeholder: true,
            in_sync: true,
            partial_on_disk: false,
            pin,
            folder_populated: false,
        };
        assert_eq!(local_file_info_to_state(&info).local_availability, availability);
    }
}

#[test]
fn local_info_maps_every_field() {
    let info = WindowsLocalInfo {
        exists: true,
        is_directory: true,
        file_size: None,
        last_modified_unix: Some(99),
        is_placeholder: false,
        in_sync: false,
        partial_on_disk: true,
        pin: PinState::Unspecified,
        folder_populated: true,
    };
    let s = local_file_info_to_state(&info);
    assert_eq!(
        s,
        VirtualFileState {
            exists: true,
            is_directory: true,
            file_size: None,
            last_modified_unix: Some(99),
            is_virtual_placeholder: false,
            in_sync: false,
            partially_on_disk: true,
            local_availability: LocalAvailability::Unspecified,
            children_present: true,
        }
    );
}

#[test]
fn open_retry_schedule() {
    let delays: Vec<Option<u64>> = (0..7).map(open_retry_delay_ms).collect();
    assert_eq!(delays, vec![Some(500), Some(1000), Some(2000), Some(4000), Some(8000), None, None]);
}
