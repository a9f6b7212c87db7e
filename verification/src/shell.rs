//! The Windows shell extension: what the host application tells Explorer
//! about items and drives, and what the status flyout, the overlay states
//! and the conflict command show.

use vstd::prelude::*;
use std::sync::Arc;
use crate::commands::ConflictAction;
use crate::drive_types::{CapacitySummary, DriveStatusUI, SyncStatus};
use crate::inventory::{ConflictState, FileMetadata};
use crate::text::push_str;

verus! {

/// How the user resolves a conflict, as chosen in the shell.
#[derive(Debug, Clone, Copy, PartialEq, Eq, Structural)]
pub enum ConflictResolutionAction {
    KeepRemote,
    OverwriteRemote,
    SaveAsNew,
}

/// A conflict resolution requested from the shell.
#[derive(Debug, Clone)]
pub struct ConflictResolutionRequest {
    pub drive_id: String,
    pub file_id: i64,
    pub path: String,
    pub action: ConflictResolutionAction,
}

/// What Explorer shows about one synced item.
#[derive(Debug, Clone, Copy, PartialEq, Eq, Structural)]
pub struct ShellItemState {
    pub shared: bool,
    pub readable: bool,
    pub has_pending_conflict: bool,
}

/// The services the shell extension asks of the host application.
pub trait ShellExtensionHost: Send + Sync {
    fn get_shell_item_state(&self, path: &str) -> Result<Option<ShellItemState>, String>;

    fn view_online(&self, path: String) -> Result<(), String>;

    fn sync_now(&self, paths: Vec<String>) -> Result<(), String>;

    fn show_conflict_toast(&self, path: String) -> Result<(), String>;

    fn resolve_conflict(&self, request: ConflictResolutionRequest) -> Result<(), String>;

    fn generate_thumbnail(&self, path: String) -> Result<Vec<u8>, String>;

    fn get_drive_status_ui(&self, mount_id: &str) -> Result<Option<DriveStatusUI>, String>;

    fn open_sync_status_window(&self) -> Result<(), String>;

    fn open_settings_window(&self) -> Result<(), String>;

    fn open_profile_url(&self, mount_id: &str) -> Result<(), String>;

    fn open_storage_details_url(&self, mount_id: &str) -> Result<(), String>;
}

/// The engine's conflict action for the shell's choice.
pub fn conflict_action_for(action: ConflictResolutionAction) -> (r: ConflictAction)
    ensures
        r == match action {
            ConflictResolutionAction::KeepRemote => ConflictAction::KeepRemote,
            ConflictResolutionAction::OverwriteRemote => ConflictAction::OverwriteRemote,
            ConflictResolutionAction::SaveAsNew => ConflictAction::SaveAsNew,
        },
{
    match action {
        ConflictResolutionAction::KeepRemote => ConflictAction::KeepRemote,
        ConflictResolutionAction::OverwriteRemote => ConflictAction::OverwriteRemote,
        ConflictResolutionAction::SaveAsNew => ConflictAction::SaveAsNew,
    }
}

/// The shell state of an inventory entry. `read_permission` is the read
/// bit of the entry's permission set, `None` when the set did not decode;
/// an entry without a permission set, or with one that did not decode, is
/// readable.
pub fn shell_item_state_from(meta: &FileMetadata, read_permission: Option<bool>) -> (r: ShellItemState)
    ensures
        r.shared == meta.shared,
        r.readable == (meta.permissions@.len() == 0 || match read_permission {
            Some(b) => b,
            None => true,
        }),
        r.has_pending_conflict == (meta.conflict_state == Some(ConflictState::Pending)),
{
    let readable = if meta.permissions.as_str().unicode_len() == 0 {
        true
    } else {
        match read_permission {
            Some(b) => b,
            None => true,
        }
    };
    ShellItemState {
        shared: meta.shared,
        readable,
        has_pending_conflict: meta.conflict_state == Some(ConflictState::Pending),
    }
}

/// The system theme as detected.
#[derive(Debug, Clone, Copy, PartialEq, Eq, Structural)]
pub enum ThemeMode {
    Dark,
    Light,
    Unspecified,
}

/// The folder the application is installed in.
#[derive(Debug, Clone)]
pub struct AppRoot {
    root: String,
}

/// The image folder for a theme: dark images only for a detected dark
/// theme.
pub open spec fn image_path_text(root: Seq<char>, theme: Option<ThemeMode>) -> Seq<char> {
    if theme == Some(ThemeMode::Dark) {
        root + "\\Images\\darkTheme"@
    } else {
        root + "\\Images\\lightTheme"@
    }
}

impl AppRoot {
    pub closed spec fn root_text(&self) -> Seq<char> {
        self.root@
    }

    pub fn new(root: String) -> (r: Self)
        ensures
            r.root_text() == root@,
    {
        AppRoot { root }
    }

    /// The themed image folder; `theme` is what the theme detection gave
    /// (`None` when it failed).
    pub fn image_path(&self, theme: Option<ThemeMode>) -> (r: String)
        ensures
            r@ == image_path_text(self.root_text(), theme),
    {
        let mut out = String::new();
        push_str(&mut out, self.root.as_str());
        match theme {
            Some(ThemeMode::Dark) => push_str(&mut out, "\\Images\\darkTheme"),
            _ => push_str(&mut out, "\\Images\\lightTheme"),
        }
        out
    }

    /// The folder of the images shared by both themes.
    pub fn image_path_general(&self) -> (r: String)
        ensures
            r@ == self.root_text() + "\\Images"@,
    {
        let mut out = String::new();
        push_str(&mut out, self.root.as_str());
        push_str(&mut out, "\\Images");
        out
    }
}

/// Failure of a COM entry point.
#[derive(Debug, Clone, Copy, PartialEq, Eq, Structural)]
pub enum ComError {
    /// Aggregation was requested and is not supported.
    NoAggregation,
    /// The call failed.
    Fail,
}

/// What a status flyout command does when clicked.
#[derive(Debug, Clone)]
pub enum StatusUIAction {
    /// Show the sync status window.
    SyncStatus,
    /// Open the user's profile in the browser.
    OpenProfile { mount_id: String },
    /// Open the storage details in the browser.
    OpenStorageDetails { mount_id: String },
    /// Open the settings window.
    OpenSettings,
}

/// A text shown in the flyout: a translation key (with the count it takes,
/// if any) or a text shown as is.
#[derive(Debug, Clone)]
pub enum UiText {
    Localized { key: String, count: Option<usize> },
    Plain(String),
}

/// One command of the status flyout.
#[derive(Debug, Clone)]
pub struct UiCommandModel {
    pub label: UiText,
    pub description: UiText,
    pub icon: String,
    pub action: StatusUIAction,
}

/// The quota bar of the status flyout.
#[derive(Debug, Clone, Copy, PartialEq, Eq, Structural)]
pub struct QuotaModel {
    pub used: u64,
    pub total: u64,
}

/// Provider state shown in the flyout.
#[derive(Debug, Clone, Copy, PartialEq, Eq, Structural)]
pub enum ProviderState {
    InSync,
    Syncing,
    Paused,
    Error,
}

/// Everything the status flyout of a drive shows.
#[derive(Debug, Clone)]
pub struct StatusUiModel {
    pub provider_state: ProviderState,
    pub provider_state_label: String,
    pub provider_state_icon: String,
    pub sync_command: UiCommandModel,
    pub primary_command: Option<UiCommandModel>,
    pub secondary_commands: Vec<UiCommandModel>,
    pub quota: Option<QuotaModel>,
    pub quota_label: Option<String>,
}

pub enum UiTextView {
    Localized(Seq<char>, Option<usize>),
    Plain(Seq<char>),
}

pub enum ActionView {
    SyncStatus,
    OpenProfile(Seq<char>),
    OpenStorageDetails(Seq<char>),
    OpenSettings,
}

pub open spec fn text_view(t: UiText) -> UiTextView {
    match t {
        UiText::Localized { key, count } => UiTextView::Localized(key@, count),
        UiText::Plain(s) => UiTextView::Plain(s@),
    }
}

pub open spec fn action_view(a: StatusUIAction) -> ActionView {
    match a {
        StatusUIAction::SyncStatus => ActionView::SyncStatus,
        StatusUIAction::OpenProfile { mount_id } => ActionView::OpenProfile(mount_id@),
        StatusUIAction::OpenStorageDetails { mount_id } => ActionView::OpenStorageDetails(mount_id@),
        StatusUIAction::OpenSettings => ActionView::OpenSettings,
    }
}

pub open spec fn command_view(c: UiCommandModel) -> (UiTextView, UiTextView, Seq<char>, ActionView) {
    (text_view(c.label), text_view(c.description), c.icon@, action_view(c.action))
}

/// The provider state for a drive's sync status (in sync when unknown).
pub open spec fn provider_state_for(status: Option<SyncStatus>) -> ProviderState {
    match status {
        Some(SyncStatus::Syncing) => ProviderState::Syncing,
        Some(SyncStatus::Paused) => ProviderState::Paused,
        Some(SyncStatus::Error) => ProviderState::Error,
        _ => ProviderState::InSync,
    }
}

/// The icon file of a sync status.
pub open spec fn sync_icon_name(status: Option<SyncStatus>) -> Seq<char> {
    match status {
        Some(SyncStatus::Syncing) => "\\CloudIconSyncing.svg"@,
        Some(SyncStatus::Paused) => "\\CloudIconPaused.svg"@,
        Some(SyncStatus::Error) => "\\CloudIconError.svg"@,
        _ => "\\CloudIconSynced.svg"@,
    }
}

/// The translation keys of a sync status: its label and its description.
pub open spec fn sync_text_keys(status: Option<SyncStatus>) -> (Seq<char>, Seq<char>) {
    match status {
        Some(SyncStatus::Syncing) => ("syncing"@, "syncingDescription"@),
        Some(SyncStatus::Paused) => ("paused"@, "pausedDescription"@),
        Some(SyncStatus::Error) => ("error"@, "errorDescription"@),
        _ => ("synced"@, "syncedDescription"@),
    }
}

/// The sync status command: clicking it shows the sync status window. A
/// drive that is syncing says how many tasks are active.
pub open spec fn sync_command_spec(status: Option<DriveStatusUI>, image: Seq<char>) -> (
    UiTextView,
    UiTextView,
    Seq<char>,
    ActionView,
) {
    let s = match status {
        Some(d) => Some(d.sync_status),
        None => None,
    };
    let keys = sync_text_keys(s);
    let count = match status {
        Some(d) => if d.sync_status == SyncStatus::Syncing {
            Some(d.active_task_count)
        } else {
            None
        },
        None => None,
    };
    (
        UiTextView::Localized(keys.0, None),
        UiTextView::Localized(keys.1, count),
        image + sync_icon_name(s),
        ActionView::SyncStatus,
    )
}

/// The capacity command, shown only when the drive's capacity is known.
pub open spec fn primary_command_spec(status: Option<DriveStatusUI>, image: Seq<char>, mount_id: Seq<char>) -> Option<
    (UiTextView, UiTextView, Seq<char>, ActionView),
> {
    match status {
        Some(d) => match d.capacity {
            Some(c) => Some(
                (
                    UiTextView::Localized("capacityDetails"@, None),
                    UiTextView::Plain(c.label@),
                    image + "\\CloudIconSynced.svg"@,
                    ActionView::OpenStorageDetails(mount_id),
                ),
            ),
            None => None,
        },
        None => None,
    }
}

/// The profile and settings commands, shown when the drive is known.
pub open spec fn secondary_commands_spec(status: Option<DriveStatusUI>, image: Seq<char>, mount_id: Seq<char>) -> Seq<
    (UiTextView, UiTextView, Seq<char>, ActionView),
> {
    match status {
        Some(d) => seq![
            (
                UiTextView::Localized("profile"@, None),
                UiTextView::Plain(d.profile_url@),
                image + "\\ProfileIcon.svg"@,
                ActionView::OpenProfile(mount_id),
            ),
            (
                UiTextView::Localized("settings"@, None),
                UiTextView::Plain(d.settings_url@),
                image + "\\SettingsIcon.svg"@,
                ActionView::OpenSettings,
            ),
        ],
        None => Seq::empty(),
    }
}

fn localized(key: &str, count: Option<usize>) -> (r: UiText)
    ensures
        text_view(r) == UiTextView::Localized(key@, count),
{
    let mut k = String::new();
    push_str(&mut k, key);
    UiText::Localized { key: k, count }
}

fn owned(a: &str) -> (r: String)
    ensures
        r@ == a@,
{
    let mut out = String::new();
    push_str(&mut out, a);
    out
}

fn joined(a: &str, b: &str) -> (r: String)
    ensures
        r@ == a@ + b@,
{
    let mut out = String::new();
    push_str(&mut out, a);
    push_str(&mut out, b);
    out
}

/// The status value behind an optional reference.
pub open spec fn status_value(status: Option<&DriveStatusUI>) -> Option<DriveStatusUI> {
    match status {
        Some(d) => Some(*d),
        None => None,
    }
}

/// Everything the status flyout shows for a drive status (if known), the
/// themed image folder and the mount: provider state, label and icon, the
/// sync command, the capacity command and quota when the capacity is
/// known, and the profile and settings commands when the drive is known.
pub open spec fn status_ui_model(r: StatusUiModel, status: Option<DriveStatusUI>, image: Seq<char>, mount_id: Seq<char>) -> bool {
    &&& r.provider_state == provider_state_for(
        match status {
            Some(d) => Some(d.sync_status),
            None => None,
        },
    )
    &&& r.provider_state_label@ == "Cloudreve"@
    &&& r.provider_state_icon@ == image + "\\cloudreve.svg"@
    &&& command_view(r.sync_command) == sync_command_spec(status, image)
    &&& match r.primary_command {
        Some(c) => primary_command_spec(status, image, mount_id) == Some(command_view(c)),
        None => primary_command_spec(status, image, mount_id) is None,
    }
    &&& r.secondary_commands@.map_values(|c: UiCommandModel| command_view(c)) == secondary_commands_spec(
        status,
        image,
        mount_id,
    )
    &&& r.quota == match status {
        Some(d) => match d.capacity {
            Some(c) => Some(QuotaModel { used: c.used as u64, total: c.total as u64 }),
            None => None,
        },
        None => None,
    }
    &&& match r.quota_label {
        Some(l) => status is Some && status->0.capacity is Some && l@ == status->0.capacity->0.label@,
        None => status is None || status->0.capacity is None,
    }
}

/// What the status flyout of a drive shows, from the drive's status (if
/// the host knew it), the themed image folder and the mount.
pub fn build_status_ui(status: Option<&DriveStatusUI>, image_path: &str, mount_id: &str) -> (r: StatusUiModel)
    ensures
        status_ui_model(r, status_value(status), image_path@, mount_id@),
{
    proof {
        reveal_strlit("syncing");
        reveal_strlit("synced");
    }
    let sync_status = match status {
        Some(d) => Some(d.sync_status),
        None => None,
    };
    let (label_key, desc_key, icon_name): (&str, &str, &str) = match sync_status {
        Some(SyncStatus::Syncing) => ("syncing", "syncingDescription", "\\CloudIconSyncing.svg"),
        Some(SyncStatus::Paused) => ("paused", "pausedDescription", "\\CloudIconPaused.svg"),
        Some(SyncStatus::Error) => ("error", "errorDescription", "\\CloudIconError.svg"),
        _ => ("synced", "syncedDescription", "\\CloudIconSynced.svg"),
    };
    let count = match status {
        Some(d) => if d.sync_status == SyncStatus::Syncing {
            Some(d.active_task_count)
        } else {
            None
        },
        None => None,
    };
    let provider_state = match sync_status {
        Some(SyncStatus::Syncing) => ProviderState::Syncing,
        Some(SyncStatus::Paused) => ProviderState::Paused,
        Some(SyncStatus::Error) => ProviderState::Error,
        _ => ProviderState::InSync,
    };
    let sync_command = UiCommandModel {
        label: localized(label_key, None),
        description: localized(desc_key, count),
        icon: joined(image_path, icon_name),
        action: StatusUIAction::SyncStatus,
    };
    let mut mid = String::new();
    push_str(&mut mid, mount_id);
    let primary_command = match status {
        Some(d) => match &d.capacity {
            Some(c) => Some(
                UiCommandModel {
                    label: localized("capacityDetails", None),
                    description: UiText::Plain(c.label.clone()),
                    icon: joined(image_path, "\\CloudIconSynced.svg"),
                    action: StatusUIAction::OpenStorageDetails { mount_id: mid.clone() },
                },
            ),
            None => None,
        },
        None => None,
    };
    let mut secondary_commands: Vec<UiCommandModel> = Vec::new();
    match status {
        Some(d) => {
            secondary_commands.push(
                UiCommandModel {
                    label: localized("profile", None),
                    description: UiText::Plain(d.profile_url.clone()),
                    icon: joined(image_path, "\\ProfileIcon.svg"),
                    action: StatusUIAction::OpenProfile { mount_id: mid.clone() },
                },
            );
            secondary_commands.push(
                UiCommandModel {
                    label: localized("settings", None),
                    description: UiText::Plain(d.settings_url.clone()),
                    icon: joined(image_path, "\\SettingsIcon.svg"),
                    action: StatusUIAction::OpenSettings,
                },
            );
        },
        None => {},
    }
    assert(secondary_commands@.map_values(|c: UiCommandModel| command_view(c)) =~= secondary_commands_spec(
        status_value(status),
        image_path@,
        mount_id@,
    ));
    let (quota, quota_label) = match status {
        Some(d) => match &d.capacity {
            Some(c) => (
                Some(QuotaModel { used: c.used as u64, total: c.total as u64 }),
                Some(c.label.clone()),
            ),
            None => (None, None),
        },
        None => (None, None),
    };
    StatusUiModel {
        provider_state,
        provider_state_label: owned("Cloudreve"),
        provider_state_icon: joined(image_path, "\\cloudreve.svg"),
        sync_command,
        primary_command,
        secondary_commands,
        quota,
        quota_label,
    }
}

/// One overlay property of an item: its column id, icon resource and the
/// translation key of its value.
#[derive(Debug, Clone)]
pub struct ItemProperty {
    pub id: u32,
    pub icon_resource: String,
    pub value_key: String,
}

pub open spec fn property_view(p: ItemProperty) -> (u32, Seq<char>, Seq<char>) {
    (p.id, p.icon_resource@, p.value_key@)
}

/// The overlay properties of an item: "shared" (id 1, people icon) for a
/// shared item, "noAccess" (id 2, lock icon) for an unreadable one.
pub open spec fn item_properties_spec(state: ShellItemState, image: Seq<char>) -> Seq<(u32, Seq<char>, Seq<char>)> {
    let shared = if state.shared {
        seq![(1u32, image + "\\people.ico,0"@, "shared"@)]
    } else {
        Seq::empty()
    };
    if !state.readable {
        shared.push((2u32, image + "\\lock.ico,0"@, "noAccess"@))
    } else {
        shared
    }
}

pub open spec fn properties_view(v: Seq<ItemProperty>) -> Seq<(u32, Seq<char>, Seq<char>)> {
    v.map_values(|p: ItemProperty| property_view(p))
}

pub fn custom_state_properties(state: &ShellItemState, image_path: &str) -> (r: Vec<ItemProperty>)
    ensures
        properties_view(r@) == item_properties_spec(*state, image_path@),
{
    let mut out: Vec<ItemProperty> = Vec::new();
    if state.shared {
        out.push(
            ItemProperty { id: 1, icon_resource: joined(image_path, "\\people.ico,0"), value_key: owned("shared") },
        );
    }
    if !state.readable {
        out.push(
            ItemProperty { id: 2, icon_resource: joined(image_path, "\\lock.ico,0"), value_key: owned("noAccess") },
        );
    }
    proof {
        reveal_strlit("");
    }
    assert(properties_view(out@) =~= item_properties_spec(*state, image_path@));
    out
}

/// A status flyout command.
pub struct SyncStatusUICommand<H: ShellExtensionHost> {
    app_root: AppRoot,
    label: String,
    description: String,
    icon: String,
    action: StatusUIAction,
    host: Arc<H>,
}

impl<H: ShellExtensionHost> SyncStatusUICommand<H> {
    pub closed spec fn label_text(&self) -> Seq<char> {
        self.label@
    }

    pub closed spec fn description_text(&self) -> Seq<char> {
        self.description@
    }

    pub closed spec fn icon_text(&self) -> Seq<char> {
        self.icon@
    }

    pub closed spec fn command_action(&self) -> ActionView {
        action_view(self.action)
    }

    pub fn new(
        app_root: AppRoot,
        label: String,
        description: String,
        icon: String,
        action: StatusUIAction,
        host: Arc<H>,
    ) -> (r: Self)
        ensures
            r.label_text() == label@,
            r.description_text() == description@,
            r.icon_text() == icon@,
            r.command_action() == action_view(action),
    {
        SyncStatusUICommand { app_root, label, description, icon, action, host }
    }

    pub fn label(&self) -> (r: &str)
        ensures
            r@ == self.label_text(),
    {
        self.label.as_str()
    }

    pub fn description(&self) -> (r: &str)
        ensures
            r@ == self.description_text(),
    {
        self.description.as_str()
    }

    pub fn icon(&self) -> (r: &str)
        ensures
            r@ == self.icon_text(),
    {
        self.icon.as_str()
    }

    /// Clicking the command: each action asks the host for its window or
    /// page; a refusal of the host is a failure.
    pub fn invoke(&self) -> (r: Result<(), ComError>)
        ensures
            r is Err ==> r == Err::<(), ComError>(ComError::Fail),
    {
        let result = match &self.action {
            StatusUIAction::SyncStatus => self.host.open_sync_status_window(),
            StatusUIAction::OpenProfile { mount_id } => self.host.open_profile_url(mount_id.as_str()),
            StatusUIAction::OpenStorageDetails { mount_id } => self.host.open_storage_details_url(
                mount_id.as_str(),
            ),
            StatusUIAction::OpenSettings => self.host.open_settings_window(),
        };
        match result {
            Ok(()) => Ok(()),
            Err(_) => Err(ComError::Fail),
        }
    }
}

/// The status flyout source of one mount.
pub struct StatusUIHandler<H: ShellExtensionHost> {
    host: Arc<H>,
    app_root: AppRoot,
    mount_id: String,
}

impl<H: ShellExtensionHost> StatusUIHandler<H> {
    /// The installation folder the images are taken from.
    pub closed spec fn app_root_text(&self) -> Seq<char> {
        self.app_root.root_text()
    }

    pub closed spec fn mount(&self) -> Seq<char> {
        self.mount_id@
    }

    pub fn new(host: Arc<H>, app_root: AppRoot, mount_id: String) -> (r: Self)
        ensures
            r.mount() == mount_id@,
    {
        StatusUIHandler { host, app_root, mount_id }
    }

    /// The drive's status as the host reports it; a refusal counts as
    /// unknown.
    pub fn get_drive_status(&self) -> Option<DriveStatusUI> {
        match self.host.get_drive_status_ui(self.mount_id.as_str()) {
            Ok(status) => status,
            Err(_) => None,
        }
    }

    /// What the flyout shows now, with the detected theme: the model of
    /// [`build_status_ui`] for the status the host reports.
    pub fn get_status_ui(&self, theme: Option<ThemeMode>) -> (r: StatusUiModel)
        ensures
            exists|status: Option<DriveStatusUI>|
                status_ui_model(r, status, image_path_text(self.app_root_text(), theme), self.mount()),
    {
        let status = self.get_drive_status();
        let image = self.app_root.image_path(theme);
        let r = match &status {
            Some(d) => build_status_ui(Some(d), image.as_str(), self.mount_id.as_str()),
            None => build_status_ui(None, image.as_str(), self.mount_id.as_str()),
        };
        assert(status_ui_model(r, status, image_path_text(self.app_root_text(), theme), self.mount()));
        r
    }
}

/// `<Arc as Clone>::clone`: another pointer to the same allocation, so the
/// value it points to is the same.
#[verifier::external_body]
fn share_host<H>(host: &Arc<H>) -> (r: Arc<H>)
    ensures
        *r == **host,
{
    host.clone()
}

/// Creates the flyout source of a mount on request.
pub struct StatusUIHandlerFactory<H: ShellExtensionHost> {
    host: Arc<H>,
}

impl<H: ShellExtensionHost> StatusUIHandlerFactory<H> {
    /// The host this talks to.
    pub closed spec fn shell_host(&self) -> H {
        *self.host
    }

    pub fn new(host: Arc<H>) -> (r: Self)
        ensures
            r.shell_host() == *host,
    {
        StatusUIHandlerFactory { host }
    }

    /// The flyout source of the mount named by `source_id`.
    pub fn get_status_ui_source(&self, source_id: String, app_root: AppRoot) -> (r: StatusUIHandler<H>)
        ensures
            r.mount() == source_id@,
    {
        StatusUIHandler::new(self.host.clone(), app_root, source_id)
    }
}

/// The class factory of the flyout source factory.
pub struct StatusUIHandlerFactoryFactory<H: ShellExtensionHost> {
    host: Arc<H>,
}

impl<H: ShellExtensionHost> StatusUIHandlerFactoryFactory<H> {
    /// The host this talks to.
    pub closed spec fn shell_host(&self) -> H {
        *self.host
    }

    pub fn new(host: Arc<H>) -> (r: Self)
        ensures
            r.shell_host() == *host,
    {
        StatusUIHandlerFactoryFactory { host }
    }

    /// A new factory; aggregation is refused.
    pub fn create_instance(&self, has_outer: bool) -> (r: Result<StatusUIHandlerFactory<H>, ComError>)
        ensures
            has_outer <==> r is Err,
            r is Err ==> r == Err::<StatusUIHandlerFactory<H>, ComError>(ComError::NoAggregation),
    {
        if has_outer {
            return Err(ComError::NoAggregation);
        }
        Ok(StatusUIHandlerFactory::new(self.host.clone()))
    }
}

/// Supplies the overlay properties of items.
pub struct CustomStateHandler<H: ShellExtensionHost> {
    host: Arc<H>,
    app_root: AppRoot,
}

impl<H: ShellExtensionHost> CustomStateHandler<H> {
    /// The installation folder the images are taken from.
    pub closed spec fn app_root_text(&self) -> Seq<char> {
        self.app_root.root_text()
    }

    /// The host this talks to.
    pub closed spec fn shell_host(&self) -> H {
        *self.host
    }

    pub fn new(host: Arc<H>, app_root: AppRoot) -> (r: Self)
        ensures
            r.shell_host() == *host,
            r.app_root_text() == app_root.root_text(),
    {
        CustomStateHandler { host, app_root }
    }

    /// The overlay properties of the item at `path`; an item the host does
    /// not know, or a refusal of the host, is a failure.
    pub fn get_item_properties(&self, path: &str, theme: Option<ThemeMode>) -> (r: Result<
        Vec<ItemProperty>,
        ComError,
    >)
        ensures
            r is Err ==> r == Err::<Vec<ItemProperty>, ComError>(ComError::Fail),
            r is Ok ==> exists|state: ShellItemState|
                properties_view(r->Ok_0@) == item_properties_spec(
                    state,
                    image_path_text(self.app_root_text(), theme),
                ),
    {
        let state = match self.host.get_shell_item_state(path) {
            Ok(Some(s)) => s,
            _ => {
                return Err(ComError::Fail);
            },
        };
        let image = self.app_root.image_path(theme);
        let props = custom_state_properties(&state, image.as_str());
        assert(properties_view(props@) == item_properties_spec(state, image_path_text(self.app_root_text(), theme)));
        Ok(props)
    }
}

/// The class factory of the overlay handler.
pub struct CustomStateHandlerFactory<H: ShellExtensionHost> {
    host: Arc<H>,
}

impl<H: ShellExtensionHost> CustomStateHandlerFactory<H> {
    /// The host this talks to.
    pub closed spec fn shell_host(&self) -> H {
        *self.host
    }

    pub fn new(host: Arc<H>) -> (r: Self)
        ensures
            r.shell_host() == *host,
    {
        CustomStateHandlerFactory { host }
    }

    /// A new overlay handler; aggregation is refused.
    pub fn create_instance(&self, has_outer: bool, app_root: AppRoot) -> (r: Result<CustomStateHandler<H>, ComError>)
        ensures
            has_outer <==> r is Err,
            r is Err ==> r == Err::<CustomStateHandler<H>, ComError>(ComError::NoAggregation),
    {
        if has_outer {
            return Err(ComError::NoAggregation);
        }
        Ok(CustomStateHandler::new(self.host.clone(), app_root))
    }
}

/// The class factory of the context menu commands.
pub struct CrExplorerCommandFactory<H: ShellExtensionHost> {
    host: Arc<H>,
}

impl<H: ShellExtensionHost> CrExplorerCommandFactory<H> {
    /// The host this talks to.
    pub closed spec fn shell_host(&self) -> H {
        *self.host
    }

    pub fn new(host: Arc<H>) -> (r: Self)
        ensures
            r.shell_host() == *host,
    {
        CrExplorerCommandFactory { host }
    }

    /// The host the created commands talk to: another handle on the same
    /// host.
    pub fn host(&self) -> (r: Arc<H>)
        ensures
            *r == self.shell_host(),
    {
        share_host(&self.host)
    }
}

/// Whether a context menu command is shown.
#[derive(Debug, Clone, Copy, PartialEq, Eq, Structural)]
pub enum CommandState {
    Enabled,
    Hidden,
}

/// The "Resolve conflict" context menu command.
pub struct ResolveConflictCommandHandler<H: ShellExtensionHost> {
    host: Arc<H>,
    app_root: AppRoot,
}

/// The single selected path, if exactly one item is selected.
pub open spec fn single_selection(selection: Option<Seq<String>>) -> Option<Seq<char>> {
    match selection {
        Some(items) => if items.len() == 1 {
            Some(items[0]@)
        } else {
            None
        },
        None => None,
    }
}

impl<H: ShellExtensionHost> ResolveConflictCommandHandler<H> {
    /// The installation folder the images are taken from.
    pub closed spec fn app_root_text(&self) -> Seq<char> {
        self.app_root.root_text()
    }

    /// The host this talks to.
    pub closed spec fn shell_host(&self) -> H {
        *self.host
    }

    pub fn new(host: Arc<H>, app_root: AppRoot) -> (r: Self)
        ensures
            r.shell_host() == *host,
            r.app_root_text() == app_root.root_text(),
    {
        ResolveConflictCommandHandler { host, app_root }
    }

    /// The translation key of the command's title.
    pub fn title_key(&self) -> (r: &'static str)
        ensures
            r@ == "resolveConflict"@,
    {
        "resolveConflict"
    }

    /// The command's icon.
    pub fn icon(&self, theme: Option<ThemeMode>) -> (r: String)
        ensures
            r@ == image_path_text(self.app_root_text(), theme) + "\\conflict1.ico"@,
    {
        let image = self.app_root.image_path(theme);
        joined(image.as_str(), "\\conflict1.ico")
    }

    /// Whether the selection is a single item whose conflict is pending, as
    /// the host reports it; anything the host cannot answer counts as no.
    pub fn has_pending_conflict(&self, selection: Option<&Vec<String>>) -> (r: bool)
        ensures
            r ==> single_selection(
                match selection {
                    Some(v) => Some(v@),
                    None => None,
                },
            ) is Some,
    {
        let items = match selection {
            Some(v) => v,
            None => {
                return false;
            },
        };
        if items.len() != 1 {
            return false;
        }
        match self.host.get_shell_item_state(items[0].as_str()) {
            Ok(Some(state)) => state.has_pending_conflict,
            _ => false,
        }
    }

    /// Shown only for a single item with a pending conflict.
    pub fn get_state(&self, selection: Option<&Vec<String>>) -> (r: CommandState)
        ensures
            r == CommandState::Enabled ==> single_selection(
                match selection {
                    Some(v) => Some(v@),
                    None => None,
                },
            ) is Some,
    {
        if self.has_pending_conflict(selection) {
            CommandState::Enabled
        } else {
            CommandState::Hidden
        }
    }

    /// Opens the conflict resolution toast for a single selected item; any
    /// other selection does nothing, and a refusal of the host is not an
    /// error of the command.
    pub fn invoke(&self, selection: Option<&Vec<String>>) -> (r: Result<(), ComError>)
        ensures
            r is Ok,
    {
        let items = match selection {
            Some(v) => v,
            None => {
                return Ok(());
            },
        };
        if items.len() != 1 {
            return Ok(());
        }
        let _ = self.host.show_conflict_toast(items[0].clone());
        Ok(())
    }
}

} // verus!
