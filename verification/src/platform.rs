//! The platform abstraction shared by the sync engine and the per-OS
//! integrations: capability descriptions, local file state, placeholder
//! descriptions and the provider traits each platform implements.

use vstd::prelude::*;
use std::sync::Arc;

verus! {

/// Which operating system integration is active.
#[derive(Debug, Clone, Copy, PartialEq, Eq, Structural)]
pub enum PlatformKind {
    Windows,
    Macos,
    Unknown,
}

/// How files of a mount are represented locally.
#[derive(Debug, Clone, Copy, PartialEq, Eq, Structural)]
pub enum VirtualFileMode {
    /// Plain files; the client downloads every file (`None` in the
    /// platform API, renamed because the name is reserved here).
    Plain,
    /// OS-level placeholders hydrated on demand.
    Placeholder,
    /// A file provider extension owns the namespace.
    FileProvider,
}

/// Desktop features a platform offers.
#[derive(Debug, Clone, Copy, PartialEq, Eq, Structural)]
pub struct DesktopIntegrationCapabilities {
    pub notifications: bool,
    pub status_ui: bool,
    pub file_manager_reveal: bool,
}

/// Everything the UI needs to know about the running platform.
#[derive(Debug, Clone, Copy, PartialEq, Eq, Structural)]
pub struct PlatformCapabilities {
    pub platform: PlatformKind,
    pub virtual_file_mode: VirtualFileMode,
    pub sync_root_registration: bool,
    pub auto_start: bool,
    pub desktop_integration: DesktopIntegrationCapabilities,
}

/// A placeholder to create below a directory that is being populated.
#[derive(Debug, Clone)]
pub struct PlaceholderEntry {
    pub relative_path: String,
    pub is_directory: bool,
    pub size: u64,
    pub created_unix: i64,
    pub modified_unix: i64,
    pub blob: Vec<u8>,
    pub mark_in_sync: bool,
    pub overwrite: bool,
}

/// Pin state of a local item.
#[derive(Debug, Clone, Copy, PartialEq, Eq, Structural)]
pub enum LocalAvailability {
    Unspecified,
    OnlineOnly,
    AlwaysLocal,
}

/// What the platform reports about a local path.
#[derive(Debug, Clone, Copy, PartialEq, Eq, Structural)]
pub struct VirtualFileState {
    pub exists: bool,
    pub is_directory: bool,
    pub file_size: Option<u64>,
    pub last_modified_unix: Option<i64>,
    pub is_virtual_placeholder: bool,
    pub in_sync: bool,
    pub partially_on_disk: bool,
    pub local_availability: LocalAvailability,
    pub children_present: bool,
}

/// The state of a path that does not exist.
pub open spec fn missing_state() -> VirtualFileState {
    VirtualFileState {
        exists: false,
        is_directory: false,
        file_size: None,
        last_modified_unix: None,
        is_virtual_placeholder: false,
        in_sync: false,
        partially_on_disk: false,
        local_availability: LocalAvailability::Unspecified,
        children_present: false,
    }
}

impl VirtualFileState {
    /// The state of a path that does not exist.
    pub fn missing() -> (r: Self)
        ensures
            r == missing_state(),
    {
        VirtualFileState {
            exists: false,
            is_directory: false,
            file_size: None,
            last_modified_unix: None,
            is_virtual_placeholder: false,
            in_sync: false,
            partially_on_disk: false,
            local_availability: LocalAvailability::Unspecified,
            children_present: false,
        }
    }

    pub fn is_directory(&self) -> (r: bool)
        ensures
            r == self.is_directory,
    {
        self.is_directory
    }

    pub fn is_virtual_placeholder(&self) -> (r: bool)
        ensures
            r == self.is_virtual_placeholder,
    {
        self.is_virtual_placeholder
    }

    pub fn is_in_sync(&self) -> (r: bool)
        ensures
            r == self.in_sync,
    {
        self.in_sync
    }

    pub fn is_partially_on_disk(&self) -> (r: bool)
        ensures
            r == self.partially_on_disk,
    {
        self.partially_on_disk
    }

    pub fn has_materialized_children(&self) -> (r: bool)
        ensures
            r == self.children_present,
    {
        self.children_present
    }
}

/// Size and timestamps of a placeholder.
#[derive(Debug, Clone, Copy, PartialEq, Eq, Structural)]
pub struct VirtualFileMetadata {
    pub size: u64,
    pub created_unix: i64,
    pub modified_unix: i64,
}

/// Everything needed to create or refresh one placeholder.
#[derive(Debug, Clone)]
pub struct VirtualPlaceholderSpec {
    pub target_path: String,
    pub sync_root: String,
    pub is_directory: bool,
    pub metadata: VirtualFileMetadata,
    pub identity_blob: Vec<u8>,
    pub mark_in_sync: bool,
    pub overwrite: bool,
    pub dehydrate_on_update: bool,
    pub has_no_children: bool,
}

/// Per-item state shown by file manager overlays.
#[derive(Debug, Clone, Copy, PartialEq, Eq, Structural)]
pub enum FileProviderItemState {
    CloudOnly,
    Syncing,
    Synced,
    Error,
}

/// A custom state registered with a sync root.
#[derive(Debug, Clone)]
pub struct MountRegistrationCustomState {
    pub id: u32,
    pub label: String,
}

/// What a platform needs to register and connect one mount.
#[derive(Debug, Clone)]
pub struct MountRegistrationContext {
    pub mount_id: String,
    pub display_name: String,
    pub sync_path: String,
    pub icon_path: Option<String>,
    pub recycle_bin_url: Option<String>,
    pub custom_states: Vec<MountRegistrationCustomState>,
}

/// A connected mount; dropping the connection is explicit.
pub trait MountSession: Send + Sync {
    fn disconnect(&self) -> Result<(), String>;
}

/// Receives downloaded file content for an on-demand hydration.
pub trait FetchDataWriter: Send + Sync {
    fn write_at(&self, data: &[u8], offset: u64) -> Result<(), String>;

    fn report_progress(&self, total_bytes: u64, transferred_bytes: u64) -> Result<(), String>;
}

/// A request to hydrate the byte range `range_start..range_end` of a file.
pub struct FetchDataRequest {
    pub path: String,
    pub range_start: u64,
    pub range_end: u64,
    pub writer: Arc<dyn FetchDataWriter>,
}

/// Callbacks a mounted drive answers for the platform.
pub trait MountedDriveCallback: Send + Sync {
    fn fetch_data(&self, request: FetchDataRequest) -> Result<(), String>;

    fn fetch_placeholders(&self, path: String) -> Result<Vec<PlaceholderEntry>, String>;

    /// Query system-visible per-item state for file manager overlays.
    fn get_item_state(&self, path: String) -> Result<FileProviderItemState, String>;

    fn rename(&self, source: String, target: String) -> Result<(), String>;

    fn renamed(&self, source: String, destination: String);
}

/// Registration of mounts with the operating system.
pub trait PlatformMountProvider: Send + Sync {
    fn is_supported(&self) -> Result<bool, String>;

    fn ensure_mount_id(&self, instance_url: &str, user_id: &str, sync_path: &str) -> Result<String, String>;

    fn connect_mount(
        &self,
        context: &MountRegistrationContext,
        handler: Arc<dyn MountedDriveCallback>,
    ) -> Result<Box<dyn MountSession>, String>;

    fn unregister_mount(&self, mount_id: &str) -> Result<(), String>;
}

/// Reports how files are represented locally.
pub trait VirtualFileProvider: Send + Sync {
    fn mode(&self) -> VirtualFileMode;
}

/// Operations on local files and placeholders.
pub trait VirtualFileOps: Send + Sync {
    fn query_local_state(&self, path: &str) -> Result<VirtualFileState, String>;

    fn upsert_placeholder(&self, spec: &VirtualPlaceholderSpec) -> Result<(), String>;

    fn remove_placeholder(&self, path: &str) -> Result<(), String>;

    fn mark_in_sync(&self, path: &str, in_sync: bool) -> Result<(), String>;

    fn hydrate_file(&self, path: &str, range_start: u64, range_end: u64) -> Result<(), String>;

    fn dehydrate_file(&self, path: &str, range_start: u64, range_end: u64) -> Result<(), String>;

    fn set_local_availability(&self, path: &str, availability: LocalAvailability) -> Result<(), String>;

    fn set_sync_error(&self, path: &str, has_error: bool) -> Result<(), String>;

    /// Placeholder metadata from a size and unix timestamps.
    fn metadata_from_unix(&self, size: u64, created_unix: i64, modified_unix: i64) -> (r: Result<
        VirtualFileMetadata,
        String,
    >)
        ensures
            r == Ok::<VirtualFileMetadata, String>(
                VirtualFileMetadata { size, created_unix, modified_unix },
            ),
    {
        Ok(VirtualFileMetadata { size, created_unix, modified_unix })
    }
}

/// Notifications and file manager integration.
pub trait DesktopIntegration: Send + Sync {
    fn send_general_text_notification(&self, title: &str, message: &str);

    fn send_token_expiry_notification(&self, drive_id: &str, title: &str, message: &str);

    fn send_conflict_notification(&self, drive_id: &str, path: &str, inventory_id: i64);

    fn open_in_file_manager(&self, path: &str) -> Result<(), String>;
}

/// Launch-at-login control.
pub trait AutoStartProvider: Send + Sync {
    fn is_enabled(&self) -> Result<bool, String>;

    fn set_enabled(&self, enabled: bool) -> Result<bool, String>;
}

/// One platform integration with all its facets.
pub trait PlatformProvider: Send + Sync {
    type Mounts: PlatformMountProvider;

    type VirtualFiles: VirtualFileProvider;

    type VirtualFileOps: VirtualFileOps;

    type Desktop: DesktopIntegration;

    type AutoStart: AutoStartProvider;

    fn capabilities(&self) -> PlatformCapabilities;

    fn mounts(&self) -> &Self::Mounts;

    fn virtual_files(&self) -> &Self::VirtualFiles;

    fn virtual_file_ops(&self) -> &Self::VirtualFileOps;

    fn desktop_integration(&self) -> &Self::Desktop;

    fn auto_start(&self) -> &Self::AutoStart;
}

} // verus!
