use std::sync::{Arc, Mutex};

use cloudreve_desktop::commands::ConflictAction;
use cloudreve_desktop::drive_types::{CapacitySummary, DriveStatusUI, SyncStatus};
use cloudreve_desktop::inventory::{ConflictState, FileMetadata};
use cloudreve_desktop::shell::{
    build_status_ui, conflict_action_for, custom_state_properties, shell_item_state_from, AppRoot, ComError,
    CommandState, ConflictResolutionAction, ConflictResolutionRequest, CrExplorerCommandFactory, CustomStateHandlerFactory, ProviderState,
    QuotaModel, ResolveConflictCommandHandler, ShellExtensionHost, ShellItemState, StatusUIAction,
    StatusUIHandlerFactoryFactory, SyncStatusUICommand, ThemeMode, UiText,
};

#[derive(Default)]
struct Host {
    state: Option<ShellItemState>,
    status: Option<DriveStatusUI>,
    refuse: bool,
    calls: Mutex<Vec<String>>,
}

impl Host {
    fn log(&self, s: String) -> Result<(), String> {
        self.calls.lock().unwrap().push(s);
        if self.refuse { Err("refused".to_string()) } else { Ok(()) }
    }
}

impl ShellExtensionHost for Host {
    fn get_shell_item_state(&self, _path: &str) -> Result<Option<ShellItemState>, String> {
        if self.refuse { Err("refused".to_string()) } else { Ok(self.state) }
    }
    fn view_online(&self, path: String) -> Result<(), String> {
        self.log(format!("view {path}"))
    }
    fn sync_now(&self, paths: Vec<String>) -> Result<(), String> {
        self.log(format!("sync {}", paths.len()))
    }
    fn show_conflict_toast(&self, path: String) -> Result<(), String> {
        self.log(format!("toast {path}"))
    }
    fn resolve_conflict(&self, request: ConflictResolutionRequest) -> Result<(), String> {
        self.log(format!("resolve {}", request.path))
    }
    fn generate_thumbnail(&self, _path: String) -> Result<Vec<u8>, String> {
        Ok(vec![])
    }
    fn get_drive_status_ui(&self, _mount_id: &str) -> Result<Option<DriveStatusUI>, String> {
        if self.refuse { Err("refused".to_string()) } else { Ok(self.status.clone()) }
    }
    fn open_sync_status_window(&self) -> Result<(), String> {
        self.log("status window".to_string())
    }
    fn open_settings_window(&self) -> Result<(), String> {
        self.log("settings".to_string())
    }
    fn open_profile_url(&self, mount_id: &str) -> Result<(), String> {
        self.log(format!("profile {mount_id}"))
    }
    fn open_storage_details_url(&self, mount_id: &str) -> Result<(), String> {
        self.log(format!("storage {mount_id}"))
    }
}

fn drive_status(sync_status: SyncStatus, capacity: bool) -> DriveStatusUI {
    DriveStatusUI {
        name: "Drive".to_string(),
        raw_icon_path: None,
        capacity: if capacity {
            Some(CapacitySummary { total: 100, used: 40, label: "40 B / 100 B".to_string() })
        } else {
            None
        },
        profile_url: "https://c/profile".to_string(),
        settings_url: "https://c/settings".to_string(),
        storage_url: "https://c/storage".to_string(),
        sync_status,
        active_task_count: 3,
    }
}

fn meta(shared: bool, permissions: &str, conflict: Option<ConflictState>) -> FileMetadata {
    FileMetadata {
        id: 1,
        drive_id: "d".to_string(),
        is_folder: false,
        local_path: "/s/a".to_string(),
        created_at: 0,
        updated_at: 0,
        etag: String::new(),
        metadata: vec![],
        permissions: permissions.to_string(),
        shared,
        size: 0,
        conflict_state: conflict,
    }
}

#[test]
fn shell_actions_map_to_engine_actions() {
    assert_eq!(conflict_action_for(ConflictResolutionAction::KeepRemote), ConflictAction::KeepRemote);
    assert_eq!(conflict_action_for(ConflictResolutionAction::OverwriteRemote), ConflictAction::OverwriteRemote);
    assert_eq!(conflict_action_for(ConflictResolutionAction::SaveAsNew), ConflictAction::SaveAsNew);
}

#[test]
fn item_state_from_inventory() {
    let s = shell_item_state_from(&meta(true, "", Some(ConflictState::Pending)), Some(false));
    assert_eq!(s, ShellItemState { shared: true, readable: true, has_pending_conflict: true });
    let s = shell_item_state_from(&meta(false, "AAE=", Some(ConflictState::Override)), Some(false));
    assert_eq!(s, ShellItemState { shared: false, readable: false, has_pending_conflict: false });
    let s = shell_item_state_from(&meta(false, "???", None), None);
    assert!(s.readable);
}

#[test]
fn image_folders_by_theme() {
    let root = AppRoot::new("C:\\App".to_string());
    assert_eq!(root.image_path(Some(ThemeMode::Dark)), "C:\\App\\Images\\darkTheme");
    assert_eq!(root.image_path(Some(ThemeMode::Light)), "C:\\App\\Images\\lightTheme");
    assert_eq!(root.image_path(None), "C:\\App\\Images\\lightTheme");
    assert_eq!(root.image_path_general(), "C:\\App\\Images");
}

#[test]
fn status_flyout_for_syncing_drive() {
    let d = drive_status(SyncStatus::Syncing, true);
    let ui = build_status_ui(Some(&d), "I", "m1");
    assert_eq!(ui.provider_state, ProviderState::Syncing);
    assert_eq!(ui.provider_state_label, "Cloudreve");
    assert_eq!(ui.provider_state_icon, "I\\cloudreve.svg");
    assert!(matches!(&ui.sync_command.label, UiText::Localized { key, count: None } if key == "syncing"));
    assert!(matches!(&ui.sync_command.description, UiText::Localized { key, count: Some(3) } if key == "syncingDescription"));
    assert_eq!(ui.sync_command.icon, "I\\CloudIconSyncing.svg");
    let primary = ui.primary_command.unwrap();
    assert!(matches!(&primary.action, StatusUIAction::OpenStorageDetails { mount_id } if mount_id == "m1"));
    assert!(matches!(&primary.description, UiText::Plain(t) if t == "40 B / 100 B"));
    assert_eq!(ui.secondary_commands.len(), 2);
    assert!(matches!(&ui.secondary_commands[0].action, StatusUIAction::OpenProfile { mount_id } if mount_id == "m1"));
    assert_eq!(ui.secondary_commands[1].icon, "I\\SettingsIcon.svg");
    assert_eq!(ui.quota, Some(QuotaModel { used: 40, total: 100 }));
    assert_eq!(ui.quota_label.as_deref(), Some("40 B / 100 B"));
}

#[test]
fn status_flyout_for_unknown_drive() {
    let ui = build_status_ui(None, "I", "m1");
    assert_eq!(ui.provider_state, ProviderState::InSync);
    assert!(matches!(&ui.sync_command.label, UiText::Localized { key, .. } if key == "synced"));
    assert!(ui.primary_command.is_none());
    assert!(ui.secondary_commands.is_empty());
    assert_eq!(ui.quota, None);
    assert_eq!(ui.quota_label, None);
    let paused = build_status_ui(Some(&drive_status(SyncStatus::Paused, false)), "I", "m1");
    assert_eq!(paused.provider_state, ProviderState::Paused);
    assert!(matches!(&paused.sync_command.description, UiText::Localized { count: None, .. }));
}

#[test]
fn overlay_properties() {
    let props = custom_state_properties(&ShellItemState { shared: true, readable: false, has_pending_conflict: false }, "I");
    assert_eq!(props.len(), 2);
    assert_eq!((props[0].id, props[0].icon_resource.as_str(), props[0].value_key.as_str()), (1, "I\\people.ico,0", "shared"));
    assert_eq!((props[1].id, props[1].icon_resource.as_str(), props[1].value_key.as_str()), (2, "I\\lock.ico,0", "noAccess"));
    assert!(custom_state_properties(&ShellItemState { shared: false, readable: true, has_pending_conflict: true }, "I").is_empty());
}

#[test]
fn factories_refuse_aggregation_and_handlers_use_host() {
    let host = Arc::new(Host { status: Some(drive_status(SyncStatus::Error, false)), ..Default::default() });
    let ff = StatusUIHandlerFactoryFactory::new(host.clone());
    assert_eq!(ff.create_instance(true).err(), Some(ComError::NoAggregation));
    let factory = ff.create_instance(false).ok().unwrap();
    let handler = factory.get_status_ui_source("m1".to_string(), AppRoot::new("R".to_string()));
    let ui = handler.get_status_ui(Some(ThemeMode::Dark));
    assert_eq!(ui.provider_state, ProviderState::Error);
    assert_eq!(ui.provider_state_icon, "R\\Images\\darkTheme\\cloudreve.svg");

    let csf = CustomStateHandlerFactory::new(Arc::new(Host {
        state: Some(ShellItemState { shared: true, readable: true, has_pending_conflict: false }),
        ..Default::default()
    }));
    assert!(csf.create_instance(true, AppRoot::new("R".to_string())).is_err());
    let cs = csf.create_instance(false, AppRoot::new("R".to_string())).ok().unwrap();
    let props = cs.get_item_properties("/s/a", None).unwrap();
    assert_eq!(props.len(), 1);
    assert_eq!(props[0].icon_resource, "R\\Images\\lightTheme\\people.ico,0");

    let unknown = CustomStateHandlerFactory::new(Arc::new(Host::default()))
        .create_instance(false, AppRoot::new("R".to_string()))
        .ok()
        .unwrap();
    assert_eq!(unknown.get_item_properties("/s/a", None).err(), Some(ComError::Fail));
}

#[test]
fn status_commands_invoke_host() {
    let host = Arc::new(Host::default());
    let cmd = SyncStatusUICommand::new(
        AppRoot::new("R".to_string()),
        "Profile".to_string(),
        "p".to_string(),
        "icon".to_string(),
        StatusUIAction::OpenProfile { mount_id: "m1".to_string() },
        host.clone(),
    );
    assert_eq!(cmd.label(), "Profile");
    assert_eq!(cmd.description(), "p");
    assert_eq!(cmd.icon(), "icon");
    assert_eq!(cmd.invoke(), Ok(()));
    assert_eq!(host.calls.lock().unwrap().clone(), vec!["profile m1".to_string()]);

    let refusing = Arc::new(Host { refuse: true, ..Default::default() });
    let cmd = SyncStatusUICommand::new(
        AppRoot::new("R".to_string()),
        String::new(),
        String::new(),
        String::new(),
        StatusUIAction::OpenSettings,
        refusing,
    );
    assert_eq!(cmd.invoke(), Err(ComError::Fail));
}

#[test]
fn resolve_conflict_command() {
    let pending = Arc::new(Host {
        state: Some(ShellItemState { shared: false, readable: true, has_pending_conflict: true }),
        ..Default::default()
    });
    let cmd = ResolveConflictCommandHandler::new(pending.clone(), AppRoot::new("R".to_string()));
    assert_eq!(cmd.title_key(), "resolveConflict");
    assert_eq!(cmd.icon(None), "R\\Images\\lightTheme\\conflict1.ico");
    let one = vec!["/s/a".to_string()];
    let two = vec!["/s/a".to_string(), "/s/b".to_string()];
    assert_eq!(cmd.get_state(Some(&one)), CommandState::Enabled);
    assert_eq!(cmd.get_state(Some(&two)), CommandState::Hidden);
    assert_eq!(cmd.get_state(None), CommandState::Hidden);
    assert_eq!(cmd.invoke(Some(&two)), Ok(()));
    assert!(pending.calls.lock().unwrap().is_empty());
    assert_eq!(cmd.invoke(Some(&one)), Ok(()));
    assert_eq!(pending.calls.lock().unwrap().clone(), vec!["toast /s/a".to_string()]);

    let clean = Arc::new(Host {
        state: Some(ShellItemState { shared: false, readable: true, has_pending_conflict: false }),
        ..Default::default()
    });
    let cmd = ResolveConflictCommandHandler::new(clean, AppRoot::new("R".to_string()));
    assert_eq!(cmd.get_state(Some(&one)), CommandState::Hidden);
}

#[test]
fn command_factory_hands_out_its_host() {
    let host = Arc::new(Host::default());
    let factory = CrExplorerCommandFactory::new(host.clone());
    let shared = factory.host();
    assert!(Arc::ptr_eq(&shared, &host));
    assert_eq!(Arc::strong_count(&host), 3);
}
