use cloudreve_desktop::macos::{
    admit_notification, availability_marker_action, conflict_notification_key,
    conflict_notification_message, escape_plist, general_notification_key,
    launch_agent_plist_contents, local_state_from_facts, macos_fpe_ipc_enabled,
    macos_virtual_file_mode, marker_contents, marker_in_sync, mount_id_from_hash,
    notification_script, token_expiry_notification_key, upsert_truncates_existing, LocalFacts,
    MacosPlatformProvider, MarkerAction, NotificationRegistry,
};
use cloudreve_desktop::platform::{LocalAvailability, PlatformKind, VirtualFileMode, VirtualFileState};

#[test]
fn ensure_mount_id_is_deterministic() {
    let p = MacosPlatformProvider::new(false, None);
    let a = p.ensure_mount_id("https://ex.com", "u1", "/tmp/cr-sync").unwrap();
    let b = p.ensure_mount_id("https://ex.com", "u1", "/tmp/cr-sync").unwrap();
    assert_eq!(a, b);
    assert!(a.starts_with("macos-local-"));
}

#[test]
fn ensure_mount_id_changes_with_path() {
    let p = MacosPlatformProvider::new(false, None);
    let a = p.ensure_mount_id("https://ex.com", "u1", "/tmp/a").unwrap();
    let b = p.ensure_mount_id("https://ex.com", "u1", "/tmp/b").unwrap();
    assert_ne!(a, b);
}

#[test]
fn escape_plist_escapes_xml_entities() {
    assert_eq!(escape_plist("A & B"), "A &amp; B");
    assert_eq!(escape_plist("<x>"), "&lt;x&gt;");
    assert_eq!(escape_plist("'q'"), "&apos;q&apos;");
    assert_eq!(escape_plist("\"z\""), "&quot;z&quot;");
}

#[test]
fn notification_throttle_blocks_same_key_within_cooldown() {
    let key = format!("unit-test-throttle-{}", 1);
    let mut registry = NotificationRegistry::new();
    assert!(!registry.should_throttle_notification(&key, 1_000, 60 * 1000));
    assert!(registry.should_throttle_notification(&key, 1_000, 60 * 1000));
}

#[test]
fn capabilities_non_virtual_mode_and_autostart() {
    let p = MacosPlatformProvider::new(false, None);
    let c = p.capabilities();
    assert_eq!(c.platform, PlatformKind::Macos);
    let expected = macos_virtual_file_mode(false, None);
    assert_eq!(c.virtual_file_mode, expected);
    assert!(c.auto_start);
}

#[test]
fn throttle_releases_after_cooldown_and_keeps_keys_apart() {
    let mut r = NotificationRegistry::new();
    assert!(!r.should_throttle_notification("a", 100, 1_000));
    assert!(r.should_throttle_notification("a", 1_099, 1_000));
    assert!(!r.should_throttle_notification("b", 1_099, 1_000));
    assert!(!r.should_throttle_notification("a", 1_100, 1_000));
    assert!(r.should_throttle_notification("a", 1_500, 1_000));
    // a clock that went backwards counts as no time elapsed
    assert!(r.should_throttle_notification("a", 50, 1_000));
}

#[test]
fn unwanted_notifications_leave_registry_alone() {
    let mut r = NotificationRegistry::new();
    assert!(!admit_notification(&mut r, false, "k", 0));
    assert!(admit_notification(&mut r, true, "k", 0));
    assert!(!admit_notification(&mut r, true, "k", 14_999));
    assert!(admit_notification(&mut r, true, "k", 15_000));
}

#[test]
fn fpe_switch_values() {
    assert!(macos_fpe_ipc_enabled(Some("1")));
    assert!(macos_fpe_ipc_enabled(Some("TRUE")));
    assert!(macos_fpe_ipc_enabled(Some("Yes")));
    assert!(macos_fpe_ipc_enabled(Some("on")));
    assert!(!macos_fpe_ipc_enabled(Some("0")));
    assert!(!macos_fpe_ipc_enabled(Some(" on")));
    assert!(!macos_fpe_ipc_enabled(None));
    assert_eq!(macos_virtual_file_mode(true, Some("on")), VirtualFileMode::FileProvider);
    assert_eq!(macos_virtual_file_mode(false, Some("on")), VirtualFileMode::Plain);
    assert_eq!(macos_virtual_file_mode(true, None), VirtualFileMode::Plain);
    let p = MacosPlatformProvider::new(true, Some("yes"));
    assert_eq!(p.capabilities().virtual_file_mode, VirtualFileMode::FileProvider);
    assert!(p.capabilities().sync_root_registration);
    assert!(!p.capabilities().desktop_integration.status_ui);
    assert_eq!(p.is_supported(), Ok(true));
}

#[test]
fn mount_id_text_is_zero_padded_hex() {
    assert_eq!(mount_id_from_hash(0), "macos-local-0000000000000000");
    assert_eq!(mount_id_from_hash(0xabc), "macos-local-0000000000000abc");
    assert_eq!(mount_id_from_hash(u64::MAX), "macos-local-ffffffffffffffff");
    let id = MacosPlatformProvider::new(false, None)
        .ensure_mount_id("https://ex.com", "u1", "/tmp/x")
        .unwrap();
    assert_eq!(id.len(), "macos-local-".len() + 16);
}

#[test]
fn notification_texts() {
    assert_eq!(general_notification_key("T", "M"), "general:T:M");
    assert_eq!(token_expiry_notification_key("d1"), "token-expiry:d1");
    assert_eq!(conflict_notification_key("d1", "/a/b", -3), "conflict:d1:/a/b:-3");
    assert_eq!(conflict_notification_message("/a/b", 42), "/a/b (42)");
    assert_eq!(
        notification_script("Ti\"t", "a\\b", None),
        "display notification \"a\\\\b\" with title \"Ti\\\"t\""
    );
    assert_eq!(
        notification_script("T", "M", Some("S")),
        "display notification \"M\" with title \"T\" subtitle \"S\""
    );
}

#[test]
fn launch_agent_plist_escapes_program() {
    let plist = launch_agent_plist_contents("/Apps/A&B.app");
    assert!(plist.contains("<string>/Apps/A&amp;B.app</string>"));
    assert!(plist.contains("<string>xyz.cloudreve.desktop</string>"));
    assert!(plist.starts_with("<?xml version=\"1.0\" encoding=\"UTF-8\"?>\n"));
    assert!(plist.ends_with("</plist>\n"));
}

#[test]
fn markers_and_local_state() {
    assert_eq!(marker_contents(true), vec![b'1']);
    assert_eq!(marker_contents(false), vec![b'0']);
    assert!(marker_in_sync(Some(b"1")));
    assert!(!marker_in_sync(Some(b"0")));
    assert!(!marker_in_sync(Some(b"")));
    assert!(!marker_in_sync(None));

    let facts = LocalFacts {
        is_dir: false,
        len: 10,
        modified_unix: Some(5),
        children_present: false,
        marker_exists: true,
        marker_in_sync: true,
    };
    let (state, clear) = local_state_from_facts(facts);
    assert!(clear);
    assert!(!state.is_virtual_placeholder);
    assert!(state.in_sync);
    assert_eq!(state.local_availability, LocalAvailability::AlwaysLocal);

    let empty_file = LocalFacts { len: 0, ..facts };
    let (state, clear) = local_state_from_facts(empty_file);
    assert!(!clear);
    assert!(state.is_virtual_placeholder);
    assert_eq!(state.local_availability, LocalAvailability::Unspecified);

    let full_dir = LocalFacts { is_dir: true, children_present: true, ..facts };
    let (state, clear) = local_state_from_facts(full_dir);
    assert!(!clear);
    assert!(!state.is_virtual_placeholder);
    assert!(state.children_present);

    let existing = VirtualFileState { exists: true, ..VirtualFileState::missing() };
    assert!(upsert_truncates_existing(false, true, &existing));
    assert!(!upsert_truncates_existing(true, true, &existing));
    assert!(!upsert_truncates_existing(false, true, &VirtualFileState::missing()));

    assert_eq!(availability_marker_action(LocalAvailability::AlwaysLocal), MarkerAction::Clear);
    assert_eq!(
        availability_marker_action(LocalAvailability::OnlineOnly),
        MarkerAction::Write { in_sync: true }
    );
    assert_eq!(availability_marker_action(LocalAvailability::Unspecified), MarkerAction::Keep);
}

#[test]
fn marker_path_is_hex_sha256() {
    let p = cloudreve_desktop::macos::placeholder_marker_path("/Users/u", "abc");
    assert_eq!(
        p,
        "/Users/u/.cloudreve/macos-file-provider/markers/ba7816bf8f01cfea414140de5dae2223b00361a396177a9cb410ff61f20015ad.marker"
    );
    let lp = cloudreve_desktop::macos::launch_agent_plist_path("/Users/u");
    assert_eq!(lp, "/Users/u/Library/LaunchAgents/xyz.cloudreve.desktop.plist");
}
