//! The local inventory: what the client last knew about each synced path,
//! and how a local file is compared with it.

use vstd::prelude::*;
use crate::platform::VirtualFileState;

verus! {

/// Conflict marker of an inventory entry.
#[derive(Debug, Clone, Copy, PartialEq, Eq, Structural)]
pub enum ConflictState {
    /// The user has not decided yet; uploads of the path are held back.
    Pending,
    /// The user chose to overwrite the remote copy.
    Override,
}

/// One inventory row: the last known server state of a local path.
#[derive(Debug)]
pub struct FileMetadata {
    pub id: i64,
    pub drive_id: String,
    pub is_folder: bool,
    pub local_path: String,
    pub created_at: i64,
    pub updated_at: i64,
    pub etag: String,
    pub metadata: Vec<(String, String)>,
    pub permissions: String,
    pub shared: bool,
    pub size: i64,
    pub conflict_state: Option<ConflictState>,
}

/// Allowed difference between a local modification time and the inventory's.
pub const MTIME_TOLERANCE_SECS: i64 = 1;

/// The inventory size seen as a byte count (negative sizes count as zero).
pub open spec fn inventory_byte_size(size: i64) -> u64 {
    if size < 0 {
        0
    } else {
        size as u64
    }
}

/// The local file has the kind and, for files, the size the inventory recorded.
pub open spec fn bytes_match(local: VirtualFileState, inventory: Option<&FileMetadata>) -> bool {
    match inventory {
        None => false,
        Some(inv) => {
            &&& local.exists
            &&& local.is_directory == inv.is_folder
            &&& (!inv.is_folder ==> local.file_size == Some(inventory_byte_size(inv.size)))
        },
    }
}

/// Additionally the local modification time is within the tolerance of the
/// inventory's.
pub open spec fn state_matches(local: VirtualFileState, inventory: Option<&FileMetadata>) -> bool {
    &&& bytes_match(local, inventory)
    &&& local.last_modified_unix is Some
    &&& {
        let d = local.last_modified_unix->0 - inventory->0.updated_at;
        -MTIME_TOLERANCE_SECS <= d <= MTIME_TOLERANCE_SECS
    }
}

/// The difference of the two timestamps fits an `i64` whenever both are known.
pub open spec fn mtime_difference_fits(local: VirtualFileState, inventory: Option<&FileMetadata>) -> bool {
    (local.last_modified_unix is Some && inventory is Some) ==> {
        let d = local.last_modified_unix->0 - inventory->0.updated_at;
        i64::MIN < d <= i64::MAX
    }
}

fn byte_size(size: i64) -> (r: u64)
    ensures
        r == inventory_byte_size(size),
{
    if size < 0 {
        0
    } else {
        size as u64
    }
}

/// Whether the local file still is what the inventory recorded: same kind,
/// same size for files, and a modification time within one second.
pub fn local_state_matches_inventory(local: &VirtualFileState, inventory: Option<&FileMetadata>) -> (r: bool)
    requires
        bytes_match(*local, inventory) ==> mtime_difference_fits(*local, inventory),
    ensures
        r == state_matches(*local, inventory),
{
    if !local_bytes_match_inventory(local, inventory) {
        return false;
    }
    let inv = match inventory {
        Some(inv) => inv,
        None => {
            return false;
        },
    };
    match local.last_modified_unix {
        None => false,
        Some(last_modified_unix) => {
            let d = last_modified_unix - inv.updated_at;
            let abs = if d < 0 {
                -d
            } else {
                d
            };
            abs <= MTIME_TOLERANCE_SECS
        },
    }
}

/// Like [`local_state_matches_inventory`] without the modification time: the
/// kind and, for files, the size match.
pub fn local_bytes_match_inventory(local: &VirtualFileState, inventory: Option<&FileMetadata>) -> (r: bool)
    ensures
        r == bytes_match(*local, inventory),
{
    let inv = match inventory {
        Some(inv) => inv,
        None => {
            return false;
        },
    };
    if !local.exists || local.is_directory != inv.is_folder {
        return false;
    }
    if !inv.is_folder && local.file_size != Some(byte_size(inv.size)) {
        return false;
    }
    true
}

/// A local file that matches the inventory including its modification time
/// also matches it by kind and size.
pub proof fn lemma_state_match_implies_bytes_match(local: VirtualFileState, inventory: Option<&FileMetadata>)
    requires
        state_matches(local, inventory),
    ensures
        bytes_match(local, inventory),
{
}

/// The modification-time comparison is symmetric: moving the inventory time
/// by `d` seconds and the local time by `-d` gives the same verdict.
pub proof fn lemma_mtime_tolerance_symmetric(a: int, b: int)
    ensures
        (-MTIME_TOLERANCE_SECS <= a - b <= MTIME_TOLERANCE_SECS) == (-MTIME_TOLERANCE_SECS <= b - a
            <= MTIME_TOLERANCE_SECS),
{
}

} // verus!
