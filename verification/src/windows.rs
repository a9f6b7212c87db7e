//! The decisions of the Windows integration: capabilities, sync root
//! identifiers and registration, how a placeholder is created or refreshed,
//! how local file information maps to the platform state, and the retry
//! schedule of contended file operations.

use vstd::prelude::*;
use vstd::string::StringSliceAdditionalSpecFns;
use crate::drive_types::pow2n;
use crate::macos::{sha256_digest, spec_sha256};
use crate::platform::{
    DesktopIntegrationCapabilities, LocalAvailability, MountRegistrationContext,
    MountRegistrationCustomState, PlatformCapabilities, PlatformKind, VirtualFileMetadata, VirtualFileMode,
    VirtualFileState, VirtualPlaceholderSpec,
};
use crate::paths::{path_file_name, path_parent, spec_path_file_name, spec_path_parent};
use crate::remote::opt_view;
use crate::text::{bytes_to_hex, hex_bytes, push_str};

verus! {

/// The Windows platform integration (Cloud Filter placeholders).
#[derive(Debug, Clone, Copy)]
pub struct WindowsPlatformProvider {}

impl WindowsPlatformProvider {
    pub fn new() -> Self {
        WindowsPlatformProvider {  }
    }

    /// Files of a mount are Cloud Filter placeholders.
    pub fn mode(&self) -> (r: VirtualFileMode)
        ensures
            r == VirtualFileMode::Placeholder,
    {
        VirtualFileMode::Placeholder
    }

    /// The capabilities, given whether the system supports sync roots (as
    /// the sync root manager answered; a failed query counts as no).
    pub fn capabilities(&self, sync_roots_supported: Result<bool, String>) -> (r: PlatformCapabilities)
        ensures
            r == (PlatformCapabilities {
                platform: PlatformKind::Windows,
                virtual_file_mode: VirtualFileMode::Placeholder,
                sync_root_registration: match sync_roots_supported {
                    Ok(b) => b,
                    Err(_) => false,
                },
                auto_start: true,
                desktop_integration: DesktopIntegrationCapabilities {
                    notifications: true,
                    status_ui: true,
                    file_manager_reveal: true,
                },
            }),
    {
        PlatformCapabilities {
            platform: PlatformKind::Windows,
            virtual_file_mode: self.mode(),
            sync_root_registration: match sync_roots_supported {
                Ok(b) => b,
                Err(_) => false,
            },
            auto_start: true,
            desktop_integration: DesktopIntegrationCapabilities {
                notifications: true,
                status_ui: true,
                file_manager_reveal: true,
            },
        }
    }

    /// Unregistering a mount without an identifier does nothing.
    pub fn unregister_needed(&self, mount_id: &str) -> (r: bool)
        ensures
            r == (mount_id@.len() > 0),
    {
        mount_id.unicode_len() > 0
    }
}

/// The host of a URL: `None` for a text that does not parse as an absolute
/// URL, `Some(None)` for a URL without a host.
pub uninterp spec fn spec_url_host(s: Seq<char>) -> Option<Option<Seq<char>>>;

/// `url::Url::parse` followed by `Url::host_str`. The parse error's
/// message is left unsaid here.
#[verifier::external_body]
fn url_host(s: &str) -> (r: Result<Option<String>, String>)
    ensures
        match spec_url_host(s@) {
            None => r is Err,
            Some(h) => r is Ok && opt_view(r->Ok_0) == h,
        },
{
    match url::Url::parse(s) {
        Ok(u) => Ok(u.host_str().map(|h| h.to_string())),
        Err(e) => Err(e.to_string()),
    }
}

fn append_bytes(out: &mut Vec<u8>, b: &[u8])
    ensures
        final(out)@ == old(out)@ + b@,
{
    let mut i: usize = 0;
    while i < b.len()
        invariant
            i <= b@.len(),
            out@ == old(out)@ + b@.subrange(0, i as int),
        decreases b.len() - i,
    {
        out.push(b[i]);
        assert(out@ =~= old(out)@ + b@.subrange(0, i + 1));
        i = i + 1;
    }
    assert(b@.subrange(0, b@.len() as int) =~= b@);
}

/// `cloudreve` followed by the first 16 hex digits of the SHA-256 of the
/// instance's host and the sync path (their UTF-8 bytes, one after the
/// other).
pub open spec fn provider_name_text(host: Seq<char>, sync_path_bytes: Seq<u8>, host_bytes: Seq<u8>) -> Seq<char> {
    "cloudreve"@ + hex_bytes(spec_sha256(host_bytes + sync_path_bytes).subrange(0, 8))
}

/// The provider part of a mount's sync root identifier, from the instance
/// URL and the sync path. An instance URL that does not parse is refused
/// with the parser's message, one without a host with "Invalid URL: no host
/// found".
pub fn sync_root_provider_name(instance_url: &str, sync_path: &str) -> (r: Result<String, String>)
    ensures
        match spec_url_host(instance_url@) {
            None => r is Err,
            Some(None) => r is Err && r->Err_0@ == "Invalid URL: no host found"@,
            Some(Some(h)) => r is Ok && exists|hs: &str|
                hs@ == h && r->Ok_0@ == provider_name_text(h, sync_path.spec_bytes(), hs.spec_bytes()),
        },
{
    let host = match url_host(instance_url) {
        Ok(Some(h)) => h,
        Ok(None) => {
            let mut msg = String::new();
            push_str(&mut msg, "Invalid URL: no host found");
            return Err(msg);
        },
        Err(e) => {
            return Err(e);
        },
    };
    let hs = host.as_str();
    let mut data: Vec<u8> = Vec::new();
    append_bytes(&mut data, hs.as_bytes());
    append_bytes(&mut data, sync_path.as_bytes());
    let digest = sha256_digest(data.as_slice());
    let mut first: Vec<u8> = Vec::new();
    let mut i: usize = 0;
    while i < 8
        invariant
            i <= 8,
            digest@.len() == 32,
            first@ == digest@.subrange(0, i as int),
        decreases 8 - i,
    {
        first.push(digest[i]);
        assert(first@ =~= digest@.subrange(0, i + 1));
        i = i + 1;
    }
    let mut name = String::new();
    push_str(&mut name, "cloudreve");
    let hex = bytes_to_hex(first.as_slice());
    push_str(&mut name, hex.as_str());
    assert(data@ =~= hs.spec_bytes() + sync_path.spec_bytes());
    Ok(name)
}

/// What registering a sync root records.
#[derive(Debug, Clone)]
pub struct SyncRootRegistration {
    pub display_name: String,
    /// Icon resource: the icon path with `,0` appended.
    pub icon: Option<String>,
    pub version: String,
    pub recycle_bin_url: Option<String>,
    pub path: String,
    /// Custom states by label, with their ids as the system stores them.
    pub custom_states: Vec<(String, i32)>,
}

pub open spec fn custom_states_view(v: Seq<MountRegistrationCustomState>) -> Seq<(Seq<char>, i32)> {
    v.map_values(|c: MountRegistrationCustomState| (c.label@, c.id as i32))
}

pub open spec fn registered_states_view(v: Seq<(String, i32)>) -> Seq<(Seq<char>, i32)> {
    v.map_values(|c: (String, i32)| (c.0@, c.1))
}

/// The registration of a mount's sync root: full hydration and population
/// (fixed by the system call), version `1.0.0`, and the mount's name, icon,
/// recycle bin, path and custom states.
pub fn sync_root_registration(context: &MountRegistrationContext) -> (r: SyncRootRegistration)
    ensures
        r.display_name@ == context.display_name@,
        match context.icon_path {
            Some(p) => r.icon is Some && r.icon->0@ == p@ + ",0"@,
            None => r.icon is None,
        },
        r.version@ == "1.0.0"@,
        opt_view(r.recycle_bin_url) == opt_view(context.recycle_bin_url),
        r.path@ == context.sync_path@,
        registered_states_view(r.custom_states@) == custom_states_view(context.custom_states@),
{
    let icon = match &context.icon_path {
        Some(p) => {
            let mut s = String::new();
            push_str(&mut s, p.as_str());
            push_str(&mut s, ",0");
            Some(s)
        },
        None => None,
    };
    let mut version = String::new();
    push_str(&mut version, "1.0.0");
    let mut states: Vec<(String, i32)> = Vec::new();
    let mut i: usize = 0;
    while i < context.custom_states.len()
        invariant
            i <= context.custom_states@.len(),
            states@.len() == i,
            registered_states_view(states@) == custom_states_view(context.custom_states@.subrange(0, i as int)),
        decreases context.custom_states.len() - i,
    {
        let c = &context.custom_states[i];
        let ghost old_states = states@;
        states.push((c.label.clone(), c.id as i32));
        assert forall|k: int| 0 <= k < i + 1 implies registered_states_view(states@)[k] == custom_states_view(
            context.custom_states@.subrange(0, i + 1),
        )[k] by {
            if k < i {
                assert(states@[k] == old_states[k]);
                assert(registered_states_view(old_states)[k] == custom_states_view(
                    context.custom_states@.subrange(0, i as int),
                )[k]);
            }
        }
        assert(registered_states_view(states@) =~= custom_states_view(
            context.custom_states@.subrange(0, i + 1),
        ));
        i = i + 1;
    }
    assert(context.custom_states@.subrange(0, context.custom_states@.len() as int) =~= context.custom_states@);
    SyncRootRegistration {
        display_name: context.display_name.clone(),
        icon,
        version,
        recycle_bin_url: crate::remote::clone_opt_string(&context.recycle_bin_url),
        path: context.sync_path.clone(),
        custom_states: states,
    }
}

/// How a local item is opened for a placeholder operation.
#[derive(Debug, Clone, Copy, PartialEq, Eq, Structural)]
pub enum OpenMode {
    /// A directory handle.
    Directory,
    /// A plain Win32 file handle.
    Win32File,
    /// An exclusive handle with write access (needed to dehydrate).
    ExclusiveWrite,
}

/// The shell notification sent after a placeholder change.
#[derive(Debug, Clone, Copy, PartialEq, Eq, Structural)]
pub enum ShellChange {
    MakeDirectory,
    Create,
    Delete,
    Attributes,
}

/// The notification announcing a created or refreshed placeholder.
pub open spec fn shell_change_for(is_directory: bool) -> ShellChange {
    if is_directory {
        ShellChange::MakeDirectory
    } else {
        ShellChange::Create
    }
}

pub fn upsert_shell_change(is_directory: bool) -> (r: ShellChange)
    ensures
        r == shell_change_for(is_directory),
{
    if is_directory {
        ShellChange::MakeDirectory
    } else {
        ShellChange::Create
    }
}

/// How an item that is not a placeholder yet is converted into one before
/// it is updated: opened as given, with the identity blob, marked in sync
/// when asked.
#[derive(Debug, Clone, Copy, PartialEq, Eq, Structural)]
pub struct ConvertStep {
    pub open_with: OpenMode,
    pub mark_in_sync: bool,
}

/// What the platform is asked to do for one placeholder; on success the
/// shell is sent `shell_change`.
#[derive(Debug, Clone)]
pub enum WindowsUpsertPlan {
    /// The item exists: convert it first when needed, then update its
    /// metadata and flags through a handle opened as `update_with`.
    UpdateExisting {
        convert: Option<ConvertStep>,
        update_with: OpenMode,
        metadata: VirtualFileMetadata,
        is_directory: bool,
        blob: Vec<u8>,
        mark_in_sync: bool,
        dehydrate: bool,
        has_no_children: bool,
        shell_change: ShellChange,
    },
    /// Nothing is there: create `file_name` in `parent` with the metadata
    /// and identity blob.
    CreateNew {
        parent: String,
        file_name: String,
        metadata: VirtualFileMetadata,
        is_directory: bool,
        blob: Vec<u8>,
        mark_in_sync: bool,
        overwrite: bool,
        shell_change: ShellChange,
    },
}

/// How the existing item is opened for the update: exclusively with write
/// access to dehydrate, else as a directory or a plain file.
pub open spec fn update_open_mode(dehydrate_on_update: bool, local: VirtualFileState) -> OpenMode {
    if dehydrate_on_update {
        OpenMode::ExclusiveWrite
    } else if local.is_directory {
        OpenMode::Directory
    } else {
        OpenMode::Win32File
    }
}

/// The conversion an existing item needs: none for a placeholder.
pub open spec fn convert_step_for(mark_in_sync: bool, local: VirtualFileState) -> Option<ConvertStep> {
    if !local.is_virtual_placeholder {
        Some(
            ConvertStep {
                open_with: if local.is_directory {
                    OpenMode::Directory
                } else {
                    OpenMode::Win32File
                },
                mark_in_sync,
            },
        )
    } else {
        None
    }
}

/// The plan for a placeholder description and the item's local state. A
/// missing item is created in the parent of `target_path` under its file
/// name; a target without a file name is refused with "failed to get file
/// name", one without a parent with "failed to get parent path".
pub open spec fn upsert_plan_ok(
    r: Result<WindowsUpsertPlan, String>,
    spec: VirtualPlaceholderSpec,
    local: VirtualFileState,
) -> bool {
    if local.exists {
        &&& r matches Ok(WindowsUpsertPlan::UpdateExisting {
            convert,
            update_with,
            metadata,
            is_directory,
            blob,
            mark_in_sync,
            dehydrate,
            has_no_children,
            shell_change,
        })
        &&& convert == convert_step_for(spec.mark_in_sync, local)
        &&& update_with == update_open_mode(spec.dehydrate_on_update, local)
        &&& metadata == spec.metadata
        &&& is_directory == spec.is_directory
        &&& blob@ == spec.identity_blob@
        &&& mark_in_sync == spec.mark_in_sync
        &&& dehydrate == spec.dehydrate_on_update
        &&& has_no_children == spec.has_no_children
        &&& shell_change == shell_change_for(spec.is_directory)
    } else {
        match spec_path_file_name(spec.target_path@) {
            None => r is Err && r->Err_0@ == "failed to get file name"@,
            Some(name) => match spec_path_parent(spec.target_path@) {
                None => r is Err && r->Err_0@ == "failed to get parent path"@,
                Some(dir) => {
                    &&& r matches Ok(WindowsUpsertPlan::CreateNew {
                        parent,
                        file_name,
                        metadata,
                        is_directory,
                        blob,
                        mark_in_sync,
                        overwrite,
                        shell_change,
                    })
                    &&& parent@ == dir
                    &&& file_name@ == name
                    &&& metadata == spec.metadata
                    &&& is_directory == spec.is_directory
                    &&& blob@ == spec.identity_blob@
                    &&& mark_in_sync == spec.mark_in_sync
                    &&& overwrite == spec.overwrite
                    &&& shell_change == shell_change_for(spec.is_directory)
                },
            },
        }
    }
}

fn copy_bytes(b: &Vec<u8>) -> (r: Vec<u8>)
    ensures
        r@ == b@,
{
    let mut out: Vec<u8> = Vec::new();
    let mut i: usize = 0;
    while i < b.len()
        invariant
            i <= b@.len(),
            out@ == b@.subrange(0, i as int),
        decreases b.len() - i,
    {
        out.push(b[i]);
        i = i + 1;
    }
    out
}

/// The plan for a placeholder, from its description and the item's local
/// state (see [`upsert_plan_ok`]).
pub fn windows_upsert_plan(spec: &VirtualPlaceholderSpec, local: &VirtualFileState) -> (r: Result<
    WindowsUpsertPlan,
    String,
>)
    ensures
        upsert_plan_ok(r, *spec, *local),
{
    proof {
        reveal_strlit("failed to get file name");
        reveal_strlit("failed to get parent path");
    }
    let shell_change = upsert_shell_change(spec.is_directory);
    if local.exists {
        let convert = if !local.is_virtual_placeholder {
            Some(
                ConvertStep {
                    open_with: if local.is_directory {
                        OpenMode::Directory
                    } else {
                        OpenMode::Win32File
                    },
                    mark_in_sync: spec.mark_in_sync,
                },
            )
        } else {
            None
        };
        let update_with = if spec.dehydrate_on_update {
            OpenMode::ExclusiveWrite
        } else if local.is_directory {
            OpenMode::Directory
        } else {
            OpenMode::Win32File
        };
        Ok(
            WindowsUpsertPlan::UpdateExisting {
                convert,
                update_with,
                metadata: spec.metadata,
                is_directory: spec.is_directory,
                blob: copy_bytes(&spec.identity_blob),
                mark_in_sync: spec.mark_in_sync,
                dehydrate: spec.dehydrate_on_update,
                has_no_children: spec.has_no_children,
                shell_change,
            },
        )
    } else {
        let file_name = match path_file_name(spec.target_path.as_str()) {
            Some(n) => n,
            None => {
                let mut msg = String::new();
                push_str(&mut msg, "failed to get file name");
                return Err(msg);
            },
        };
        let parent = match path_parent(spec.target_path.as_str()) {
            Some(p) => p,
            None => {
                let mut msg = String::new();
                push_str(&mut msg, "failed to get parent path");
                return Err(msg);
            },
        };
        Ok(
            WindowsUpsertPlan::CreateNew {
                parent,
                file_name,
                metadata: spec.metadata,
                is_directory: spec.is_directory,
                blob: copy_bytes(&spec.identity_blob),
                mark_in_sync: spec.mark_in_sync,
                overwrite: spec.overwrite,
                shell_change,
            },
        )
    }
}

/// A placeholder is never converted twice, an item that is already a
/// placeholder keeps its content unless dehydration was asked for, and a
/// missing item is only ever created.
pub proof fn lemma_upsert_converts_only_plain_items(
    r: Result<WindowsUpsertPlan, String>,
    spec: VirtualPlaceholderSpec,
    local: VirtualFileState,
)
    requires
        upsert_plan_ok(r, spec, local),
    ensures
        r matches Ok(WindowsUpsertPlan::UpdateExisting { convert, update_with, .. }) ==> (convert is Some
            <==> !local.is_virtual_placeholder) && (update_with == OpenMode::ExclusiveWrite
            <==> spec.dehydrate_on_update),
        !local.exists ==> !(r matches Ok(WindowsUpsertPlan::UpdateExisting { .. })),
{
}

/// Cloud Filter pin state.
#[derive(Debug, Clone, Copy, PartialEq, Eq, Structural)]
pub enum PinState {
    Unspecified,
    Pinned,
    Unpinned,
}

/// The pin state to set for an availability; `Unspecified` sets nothing.
pub fn pin_state_for(availability: LocalAvailability) -> (r: Option<PinState>)
    ensures
        r == match availability {
            LocalAvailability::AlwaysLocal => Some(PinState::Pinned),
            LocalAvailability::OnlineOnly => Some(PinState::Unpinned),
            LocalAvailability::Unspecified => None,
        },
{
    match availability {
        LocalAvailability::AlwaysLocal => Some(PinState::Pinned),
        LocalAvailability::OnlineOnly => Some(PinState::Unpinned),
        LocalAvailability::Unspecified => None,
    }
}

/// What Cloud Filter reports about a local item.
#[derive(Debug, Clone, Copy, PartialEq, Eq, Structural)]
pub struct WindowsLocalInfo {
    pub exists: bool,
    pub is_directory: bool,
    pub file_size: Option<u64>,
    /// Seconds since the epoch of the last modification, when known.
    pub last_modified_unix: Option<i64>,
    pub is_placeholder: bool,
    pub in_sync: bool,
    pub partial_on_disk: bool,
    pub pin: PinState,
    pub folder_populated: bool,
}

/// The platform state of a local item from its Cloud Filter information.
pub fn local_file_info_to_state(info: &WindowsLocalInfo) -> (r: VirtualFileState)
    ensures
        r == (VirtualFileState {
            exists: info.exists,
            is_directory: info.is_directory,
            file_size: info.file_size,
            last_modified_unix: info.last_modified_unix,
            is_virtual_placeholder: info.is_placeholder,
            in_sync: info.in_sync,
            partially_on_disk: info.partial_on_disk,
            local_availability: match info.pin {
                PinState::Pinned => LocalAvailability::AlwaysLocal,
                PinState::Unpinned => LocalAvailability::OnlineOnly,
                PinState::Unspecified => LocalAvailability::Unspecified,
            },
            children_present: info.folder_populated,
        }),
{
    VirtualFileState {
        exists: info.exists,
        is_directory: info.is_directory,
        file_size: info.file_size,
        last_modified_unix: info.last_modified_unix,
        is_virtual_placeholder: info.is_placeholder,
        in_sync: info.in_sync,
        partially_on_disk: info.partial_on_disk,
        local_availability: match info.pin {
            PinState::Pinned => LocalAvailability::AlwaysLocal,
            PinState::Unpinned => LocalAvailability::OnlineOnly,
            PinState::Unspecified => LocalAvailability::Unspecified,
        },
        children_present: info.folder_populated,
    }
}

/// The availability a reported pin state stands for.
pub open spec fn availability_of(pin: PinState) -> LocalAvailability {
    match pin {
        PinState::Pinned => LocalAvailability::AlwaysLocal,
        PinState::Unpinned => LocalAvailability::OnlineOnly,
        PinState::Unspecified => LocalAvailability::Unspecified,
    }
}

/// Setting an availability and reading the item back reports that
/// availability.
pub proof fn lemma_pin_roundtrip(availability: LocalAvailability)
    requires
        availability != LocalAvailability::Unspecified,
    ensures
        availability_of(
            match availability {
                LocalAvailability::AlwaysLocal => PinState::Pinned,
                _ => PinState::Unpinned,
            },
        ) == availability,
{
}

/// Most retries of an exclusive open that keeps failing.
pub const MAX_OPEN_RETRIES: usize = 5;

/// The wait before the next attempt after `retries` failed retries: 500 ms
/// doubling each time, and no more attempts after five retries.
pub fn open_retry_delay_ms(retries: usize) -> (r: Option<u64>)
    ensures
        retries < MAX_OPEN_RETRIES ==> r == Some((500 * pow2n(retries as nat)) as u64),
        retries >= MAX_OPEN_RETRIES ==> r is None,
{
    if retries >= MAX_OPEN_RETRIES {
        return None;
    }
    let mut delay: u64 = 500;
    let mut k: usize = 0;
    while k < retries
        invariant
            k <= retries,
            retries < 5,
            delay == 500 * pow2n(k as nat),
        decreases retries - k,
    {
        proof {
            assert(pow2n((k + 1) as nat) == 2 * pow2n(k as nat));
            assert(pow2n(k as nat) <= 16) by {
                if k == 0 {} else if k == 1 { assert(pow2n(1) == 2 * pow2n(0)); } else if k == 2 {
                    assert(pow2n(1) == 2 * pow2n(0));
                    assert(pow2n(2) == 2 * pow2n(1));
                } else {
                    assert(pow2n(1) == 2 * pow2n(0));
                    assert(pow2n(2) == 2 * pow2n(1));
                    assert(pow2n(3) == 2 * pow2n(2));
                }
            }
        }
        delay = delay * 2;
        k = k + 1;
    }
    Some(delay)
}

} // verus!
