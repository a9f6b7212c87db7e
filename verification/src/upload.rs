//! The decisions of an upload task: whether and how a local item is sent to
//! the server, the parameters of the upload, and what a failure leads to.

use vstd::prelude::*;
use crate::inventory::{ConflictState, FileMetadata};
use crate::platform::{VirtualFileMode, VirtualFileState};
use crate::remote::{parse_rfc3339_timestamp, spec_rfc3339_timestamp, RemoteFile, RemoteFileType, RemoteFileView};
use crate::text::push_str;

verus! {

/// Server error code: the object already exists.
pub const OBJECT_EXISTED: i32 = 40004;

/// Server error code: the upload was based on a stale version.
pub const STALE_VERSION: i32 = 40076;

/// Allowed difference between the remote and local modification times when
/// an existing remote object is taken for the local one.
pub const OBJECT_EXISTED_MTIME_TOLERANCE_SECS: i64 = 2;

/// Whether one of the causes of an error (given by their API error codes,
/// `None` for a cause that is no API error) carries the code.
pub fn is_api_error_code_in_chain(chain: &Vec<Option<i32>>, want: i32) -> (r: bool)
    ensures
        r == exists|i: int| 0 <= i < chain@.len() && chain@[i] == Some(want),
{
    let mut i: usize = 0;
    while i < chain.len()
        invariant
            i <= chain@.len(),
            forall|j: int| 0 <= j < i ==> chain@[j] != Some(want),
        decreases chain.len() - i,
    {
        if chain[i] == Some(want) {
            return true;
        }
        i = i + 1;
    }
    false
}

/// When the server says the object exists, the local item is taken for it
/// only if it looks like the same content: it exists, has the same kind and
/// size, and the modification times are within two seconds of each other
/// (or one of them is unknown).
pub open spec fn object_existed_matches(remote: RemoteFileView, local: VirtualFileState) -> bool {
    &&& local.exists
    &&& local.is_directory == (remote.file_type == RemoteFileType::Folder)
    &&& local.file_size is Some
    &&& local.file_size->0 as i64 == remote.size
    &&& match (spec_rfc3339_timestamp(remote.updated_at), local.last_modified_unix) {
        (Some(r), Some(l)) => -OBJECT_EXISTED_MTIME_TOLERANCE_SECS <= r - l <= OBJECT_EXISTED_MTIME_TOLERANCE_SECS,
        _ => true,
    }
}

pub fn local_matches_remote_object_existed(remote: &RemoteFile, local: &VirtualFileState) -> (r: bool)
    ensures
        r == object_existed_matches(remote@, *local),
{
    if !local.exists {
        return false;
    }
    if local.is_directory != (remote.file_type == RemoteFileType::Folder) {
        return false;
    }
    let local_size = match local.file_size {
        Some(s) => s as i64,
        None => {
            return false;
        },
    };
    if local_size != remote.size {
        return false;
    }
    let remote_ts = parse_rfc3339_timestamp(remote.updated_at.as_str());
    match (remote_ts, local.last_modified_unix) {
        (Some(r), Some(l)) => {
            let d: i128 = (r as i128) - (l as i128);
            -2 <= d && d <= 2
        },
        _ => true,
    }
}

/// Where an upload task goes.
#[derive(Debug, Clone, Copy, PartialEq, Eq, Structural)]
pub enum UploadRoute {
    /// The local item is gone: nothing to upload.
    SkipMissing,
    /// The platform reports the file in sync: nothing to upload.
    SkipInSync,
    /// Create the folder, or the empty file, on the server.
    CreateEmptyOrFolder,
    /// Empty the existing remote file.
    ClearContent,
    /// Send the content.
    UploadContent,
}

pub open spec fn upload_route_spec(
    local: VirtualFileState,
    platform_mode: Option<VirtualFileMode>,
    force_override: bool,
    has_inventory: bool,
) -> UploadRoute {
    let trust_in_sync = match platform_mode {
        Some(m) => m != VirtualFileMode::Plain,
        None => false,
    };
    let size = match local.file_size {
        Some(s) => s,
        None => 0,
    };
    if !local.exists {
        UploadRoute::SkipMissing
    } else if trust_in_sync && local.in_sync && !local.is_directory {
        UploadRoute::SkipInSync
    } else if local.is_directory {
        UploadRoute::CreateEmptyOrFolder
    } else if size == 0 && !force_override && !has_inventory {
        UploadRoute::CreateEmptyOrFolder
    } else if size == 0 && !force_override {
        UploadRoute::ClearContent
    } else {
        UploadRoute::UploadContent
    }
}

/// Where an upload goes, from the local state, the platform's file mode
/// (`None` when no platform is set; only placeholder platforms are trusted
/// to report "in sync"), whether the user forced an overwrite, and whether
/// the path has an inventory entry.
pub fn upload_route(
    local: &VirtualFileState,
    platform_mode: Option<VirtualFileMode>,
    force_override: bool,
    has_inventory: bool,
) -> (r: UploadRoute)
    ensures
        r == upload_route_spec(*local, platform_mode, force_override, has_inventory),
{
    let trust_in_sync = match platform_mode {
        Some(m) => m != VirtualFileMode::Plain,
        None => false,
    };
    if !local.exists {
        return UploadRoute::SkipMissing;
    }
    if trust_in_sync && local.in_sync && !local.is_directory {
        return UploadRoute::SkipInSync;
    }
    let size = match local.file_size {
        Some(s) => s,
        None => 0,
    };
    if local.is_directory {
        UploadRoute::CreateEmptyOrFolder
    } else if size == 0 && !force_override && !has_inventory {
        UploadRoute::CreateEmptyOrFolder
    } else if size == 0 && !force_override {
        UploadRoute::ClearContent
    } else {
        UploadRoute::UploadContent
    }
}

/// Plain files never report "in sync" to the upload: with plain files every
/// existing, changed file is uploaded or created.
pub proof fn lemma_plain_files_never_skip_in_sync(local: VirtualFileState, force_override: bool, has_inventory: bool)
    ensures
        upload_route_spec(local, Some(VirtualFileMode::Plain), force_override, has_inventory)
            != UploadRoute::SkipInSync,
        upload_route_spec(local, None, force_override, has_inventory) != UploadRoute::SkipInSync,
{
}

/// Every existing local directory is created on the server, whatever the
/// platform reports about it; only an existing file that the platform
/// trusts to be in sync is skipped as such.
pub proof fn lemma_directories_are_always_created(
    local: VirtualFileState,
    platform_mode: Option<VirtualFileMode>,
    force_override: bool,
    has_inventory: bool,
)
    ensures
        local.exists && local.is_directory ==> upload_route_spec(local, platform_mode, force_override, has_inventory)
            == UploadRoute::CreateEmptyOrFolder,
        upload_route_spec(local, platform_mode, force_override, has_inventory) == UploadRoute::SkipInSync
            ==> local.exists && !local.is_directory && local.in_sync && platform_mode is Some
            && platform_mode->0 != VirtualFileMode::Plain,
        !local.exists <==> upload_route_spec(local, platform_mode, force_override, has_inventory)
            == UploadRoute::SkipMissing,
{
}

/// The version the upload is based on: none for a new file or when the user
/// chose to overwrite the remote copy, else the inventory's etag.
pub open spec fn previous_version_spec(meta: Option<&FileMetadata>) -> Seq<char> {
    match meta {
        Some(m) => if m.conflict_state == Some(ConflictState::Override) {
            Seq::empty()
        } else {
            m.etag@
        },
        None => Seq::empty(),
    }
}

/// The parameters of a content upload.
#[derive(Debug, Clone)]
pub struct UploadPlan {
    pub file_size: u64,
    /// Modification time in milliseconds, saturated.
    pub last_modified_ms: Option<i64>,
    /// Replace an existing remote file.
    pub overwrite: bool,
    pub previous_version: String,
}

/// `t * 1000`, saturated to the `i64` range.
pub open spec fn millis_saturated(t: i64) -> i64 {
    if t * 1000 > i64::MAX {
        i64::MAX
    } else if t * 1000 < i64::MIN {
        i64::MIN
    } else {
        (t * 1000) as i64
    }
}

fn saturating_millis(t: i64) -> (r: i64)
    ensures
        r == millis_saturated(t),
{
    if t > i64::MAX / 1000 {
        i64::MAX
    } else if t < i64::MIN / 1000 {
        i64::MIN
    } else {
        t * 1000
    }
}

/// The parameters of an upload: the size and time of the local file, an
/// overwrite when the path is known or the user forced it, and the version
/// it is based on.
pub fn upload_plan(local: &VirtualFileState, meta: Option<&FileMetadata>, force_override: bool) -> (r: UploadPlan)
    ensures
        r.file_size == match local.file_size {
            Some(s) => s,
            None => 0,
        },
        r.last_modified_ms == match local.last_modified_unix {
            Some(t) => Some(millis_saturated(t)),
            None => None,
        },
        r.overwrite == (meta is Some || force_override),
        r.previous_version@ == previous_version_spec(meta),
{
    let previous_version = match meta {
        Some(m) => if m.conflict_state == Some(ConflictState::Override) {
            String::new()
        } else {
            m.etag.clone()
        },
        None => String::new(),
    };
    UploadPlan {
        file_size: match local.file_size {
            Some(s) => s,
            None => 0,
        },
        last_modified_ms: match local.last_modified_unix {
            Some(t) => Some(saturating_millis(t)),
            None => None,
        },
        overwrite: meta.is_some() || force_override,
        previous_version,
    }
}

/// An override chosen by the user always uploads without a base version.
pub proof fn lemma_override_drops_base_version(meta: &FileMetadata)
    requires
        meta.conflict_state == Some(ConflictState::Override),
    ensures
        previous_version_spec(Some(meta)) == Seq::<char>::empty(),
{
}

/// How the server is asked to create an empty item: its type name, and
/// whether an existing file is an error (folders are merged).
pub fn create_request(is_directory: bool) -> (r: (String, bool))
    ensures
        r.0@ == (if is_directory {
            "folder"@
        } else {
            "file"@
        }),
        r.1 == !is_directory,
{
    let mut t = String::new();
    if is_directory {
        push_str(&mut t, "folder");
    } else {
        push_str(&mut t, "file");
    }
    (t, !is_directory)
}

/// The outcome of comparing with an existing remote object.
#[derive(Debug, Clone, Copy, PartialEq, Eq, Structural)]
pub enum AlignOutcome {
    /// Not attempted: the error was not "object existed".
    NotTried,
    /// The remote object is the local content; the inventory was aligned.
    Aligned,
    /// The remote object differs from the local content.
    Mismatch,
    /// The comparison itself failed.
    Failed,
}

/// What a failed upload leads to.
#[derive(Debug, Clone, Copy, PartialEq, Eq, Structural)]
pub struct UploadFailure {
    /// The task succeeds after all.
    pub succeeded: bool,
    /// Mark the path's conflict as pending and notify the user.
    pub mark_conflict: bool,
    /// Show the error state on the item.
    pub set_sync_error: bool,
    /// The reported error is the mismatch (with the original as context).
    pub mismatch_error: bool,
}

pub open spec fn upload_failure_spec(align: AlignOutcome, stale_version: bool) -> UploadFailure {
    match align {
        AlignOutcome::Aligned => UploadFailure {
            succeeded: true,
            mark_conflict: false,
            set_sync_error: false,
            mismatch_error: false,
        },
        AlignOutcome::Mismatch => UploadFailure {
            succeeded: false,
            mark_conflict: true,
            set_sync_error: true,
            mismatch_error: true,
        },
        _ => UploadFailure {
            succeeded: false,
            mark_conflict: stale_version,
            set_sync_error: true,
            mismatch_error: false,
        },
    }
}

/// What a failed upload leads to: an existing remote object that is the
/// local content makes it a success; one that differs is a conflict; a
/// stale version is a conflict too; every other failure shows the error.
pub fn resolve_upload_failure(align: AlignOutcome, stale_version: bool) -> (r: UploadFailure)
    ensures
        r == upload_failure_spec(align, stale_version),
{
    match align {
        AlignOutcome::Aligned => UploadFailure {
            succeeded: true,
            mark_conflict: false,
            set_sync_error: false,
            mismatch_error: false,
        },
        AlignOutcome::Mismatch => UploadFailure {
            succeeded: false,
            mark_conflict: true,
            set_sync_error: true,
            mismatch_error: true,
        },
        _ => UploadFailure {
            succeeded: false,
            mark_conflict: stale_version,
            set_sync_error: true,
            mismatch_error: false,
        },
    }
}

/// A failed upload either succeeds after all or shows the error state on
/// the item; it never does both.
pub proof fn lemma_failure_is_visible(align: AlignOutcome, stale_version: bool)
    ensures
        upload_failure_spec(align, stale_version).succeeded != upload_failure_spec(
            align,
            stale_version,
        ).set_sync_error,
        upload_failure_spec(align, stale_version).mark_conflict ==> !upload_failure_spec(
            align,
            stale_version,
        ).succeeded,
{
}

/// The inventory id named in a conflict notification (0 for a path
/// without an entry).
pub fn conflict_inventory_id(meta: Option<&FileMetadata>) -> (r: i64)
    ensures
        r == match meta {
            Some(m) => m.id,
            None => 0,
        },
{
    match meta {
        Some(m) => m.id,
        None => 0,
    }
}

} // verus!
