//! Placeholders and inventory entries made from the server's listing: the
//! placeholder builder that the sync engine commits, and the conversions
//! used when a directory is populated on demand.

use vstd::prelude::*;
use vstd::string::StringSliceAdditionalSpecFns;
use vstd::utf8::encode_utf8;
use crate::inventory::FileMetadata;
use crate::paths::{path_join, spec_path_join};
use crate::platform::{PlaceholderEntry, VirtualFileMetadata, VirtualFileState, VirtualPlaceholderSpec};
use crate::remote::{
    clone_pairs, opt_view, pairs_view, parse_rfc3339_timestamp, parse_utc_timestamp, spec_rfc3339_timestamp,
    spec_utc_timestamp, RemoteFile, RemoteFileType, RemoteFileView,
};
use crate::sync_plan::find_from;
use crate::remote_walk::{is_redirect, is_symbolic_link, relative_under_base, remote_path_to_local_relative_path};
use crate::text::{push_str, str_eq};

verus! {

/// Metadata key under which an inventory entry keeps the entry's canonical
/// remote URI.
pub open spec fn inventory_remote_uri_key() -> Seq<char> {
    "sys:desktop_inventory_uri"@
}

pub fn inventory_remote_uri_key_text() -> (r: &'static str)
    ensures
        r@ == inventory_remote_uri_key(),
{
    "sys:desktop_inventory_uri"
}

/// The pairs with `key` set to `value`: the first pair with that key gets
/// the value, or the pair is appended.
pub open spec fn with_pair(pairs: Seq<(Seq<char>, Seq<char>)>, key: Seq<char>, value: Seq<char>) -> Seq<
    (Seq<char>, Seq<char>),
> {
    if exists|i: int| 0 <= i < pairs.len() && (#[trigger] pairs[i]).0 == key {
        let i = choose|i: int|
            0 <= i < pairs.len() && (#[trigger] pairs[i]).0 == key && forall|j: int|
                0 <= j < i ==> (#[trigger] pairs[j]).0 != key;
        pairs.update(i, (key, value))
    } else {
        pairs.push((key, value))
    }
}

/// Sets `key` to `value` in a list of key/value pairs (see [`with_pair`]).
pub fn set_pair(pairs: &mut Vec<(String, String)>, key: &str, value: String)
    ensures
        pairs_view(final(pairs)@) == with_pair(pairs_view(old(pairs)@), key@, value@),
{
    let ghost before = pairs_view(pairs@);
    let mut i: usize = 0;
    while i < pairs.len()
        invariant
            i <= pairs@.len(),
            pairs@ == old(pairs)@,
            before == pairs_view(pairs@),
            forall|j: int| 0 <= j < i ==> (#[trigger] before[j]).0 != key@,
        decreases pairs.len() - i,
    {
        if str_eq(pairs[i].0.as_str(), key) {
            let k = pairs[i].0.clone();
            pairs.set(i, (k, value));
            proof {
                assert(before[i as int].0 == key@);
                let w = choose|w: int|
                    0 <= w < before.len() && (#[trigger] before[w]).0 == key@ && forall|j: int|
                        0 <= j < w ==> (#[trigger] before[j]).0 != key@;
                if w < i {
                    assert(before[w].0 != key@);
                } else if w > i {
                    assert(before[i as int].0 != key@);
                }
                assert(pairs_view(pairs@) =~= before.update(i as int, (key@, value@)));
            }
            return;
        }
        i = i + 1;
    }
    pairs.push((key.to_owned(), value));
    assert(pairs_view(pairs@) =~= before.push((key@, value@)));
}

/// Options bit: dehydrate the content when the placeholder is refreshed.
pub const INVALIDATE_ALL_RANGE: u32 = 1;

/// Options bit: the directory has no children to populate.
pub const MARK_NO_CHILDREN: u32 = 2;

/// A placeholder in the making: where it goes, the inventory entry it is
/// written from, and how it is written.
#[derive(Debug)]
pub struct CrPlaceholder {
    /// What the platform reported about the path when the builder was made.
    pub local_file_info: VirtualFileState,
    local_path: String,
    sync_root: String,
    drive_id: String,
    file_meta: Option<FileMetadata>,
    options: u32,
}

/// The inventory entry for a listed remote entry at `local_path`: times
/// parsed from RFC 3339 (zero when they do not parse), the canonical URI
/// recorded in the metadata, the content version as etag.
pub open spec fn remote_entry_fields_ok(
    m: FileMetadata,
    drive_id: Seq<char>,
    local_path: Seq<char>,
    remote: RemoteFileView,
) -> bool {
    &&& m.id == 0
    &&& m.drive_id@ == drive_id
    &&& m.local_path@ == local_path
    &&& m.is_folder == (remote.file_type == RemoteFileType::Folder)
    &&& m.created_at == match spec_rfc3339_timestamp(remote.created_at) {
        Some(t) => t,
        None => 0,
    }
    &&& m.updated_at == match spec_rfc3339_timestamp(remote.updated_at) {
        Some(t) => t,
        None => 0,
    }
    &&& m.size == remote.size
    &&& m.etag@ == match remote.primary_entity {
        Some(e) => e,
        None => Seq::empty(),
    }
    &&& pairs_view(m.metadata@) == with_pair(
        match remote.metadata {
            Some(p) => p,
            None => Seq::empty(),
        },
        inventory_remote_uri_key(),
        remote.path,
    )
    &&& m.permissions@ == match remote.permission {
        Some(p) => p,
        None => Seq::empty(),
    }
    &&& m.shared == match remote.shared {
        Some(b) => b,
        None => false,
    }
    &&& m.conflict_state is None
}

fn string_or_empty(s: &Option<String>) -> (r: String)
    ensures
        r@ == match opt_view(*s) {
            Some(v) => v,
            None => Seq::empty(),
        },
{
    match s {
        Some(v) => v.clone(),
        None => String::new(),
    }
}

/// The inventory entry for a listed remote entry (see [`remote_entry_fields_ok`]).
pub fn remote_file_metadata(drive_id: &str, local_path: &str, remote: &RemoteFile) -> (r: FileMetadata)
    ensures
        remote_entry_fields_ok(r, drive_id@, local_path@, remote@),
{
    let created_at = match parse_rfc3339_timestamp(remote.created_at.as_str()) {
        Some(t) => t,
        None => 0,
    };
    let updated_at = match parse_rfc3339_timestamp(remote.updated_at.as_str()) {
        Some(t) => t,
        None => 0,
    };
    let mut metadata = match &remote.metadata {
        Some(m) => clone_pairs(m),
        None => Vec::new(),
    };
    assert(pairs_view(metadata@) == match remote@.metadata {
        Some(p) => p,
        None => Seq::<(Seq<char>, Seq<char>)>::empty(),
    });
    set_pair(&mut metadata, inventory_remote_uri_key_text(), remote.path.clone());
    FileMetadata {
        id: 0,
        drive_id: drive_id.to_owned(),
        is_folder: remote.file_type == RemoteFileType::Folder,
        local_path: local_path.to_owned(),
        created_at,
        updated_at,
        etag: string_or_empty(&remote.primary_entity),
        metadata,
        permissions: string_or_empty(&remote.permission),
        shared: match remote.shared {
            Some(b) => b,
            None => false,
        },
        size: remote.size,
        conflict_state: None,
    }
}

impl CrPlaceholder {
    pub closed spec fn path(&self) -> Seq<char> {
        self.local_path@
    }

    /// What the platform reported about the path.
    pub closed spec fn local_info(&self) -> VirtualFileState {
        self.local_file_info
    }

    pub closed spec fn root(&self) -> Seq<char> {
        self.sync_root@
    }

    pub closed spec fn drive(&self) -> Seq<char> {
        self.drive_id@
    }

    pub closed spec fn meta(&self) -> Option<FileMetadata> {
        self.file_meta
    }

    /// Whether the content is dropped when the placeholder is refreshed.
    pub closed spec fn invalidates_all(&self) -> bool {
        self.options & INVALIDATE_ALL_RANGE != 0
    }

    /// Whether the directory is marked as having no children.
    pub closed spec fn no_children(&self) -> bool {
        self.options & MARK_NO_CHILDREN != 0
    }

    /// A builder for `local_path` below `sync_root`, with the platform's
    /// current report on the path (missing when it could not be read).
    pub fn new(local_path: String, sync_root: String, drive_id: String, local_file_info: VirtualFileState) -> (r:
        Self)
        ensures
            r.path() == local_path@,
            r.root() == sync_root@,
            r.drive() == drive_id@,
            r.local_info() == local_file_info,
            r.meta() is None,
            !r.invalidates_all(),
            !r.no_children(),
    {
        assert(0u32 & 1u32 == 0u32 && 0u32 & 2u32 == 0u32) by (bit_vector);
        CrPlaceholder { local_file_info, local_path, sync_root, drive_id, file_meta: None, options: 0 }
    }

    pub fn with_invalidate_all_range(self, enable: bool) -> (r: Self)
        ensures
            r.invalidates_all() == enable,
            r.no_children() == self.no_children(),
            r.path() == self.path(),
            r.root() == self.root(),
            r.drive() == self.drive(),
            r.meta() == self.meta(),
            r.local_info() == self.local_info(),
    {
        let o = self.options;
        let options = if enable {
            o | INVALIDATE_ALL_RANGE
        } else {
            o & !INVALIDATE_ALL_RANGE
        };
        assert((o | 1u32) & 1u32 != 0u32) by (bit_vector);
        assert((o & !1u32) & 1u32 == 0u32) by (bit_vector);
        assert(((o | 1u32) & 2u32 != 0u32) == (o & 2u32 != 0u32)) by (bit_vector);
        assert(((o & !1u32) & 2u32 != 0u32) == (o & 2u32 != 0u32)) by (bit_vector);
        CrPlaceholder { options, ..self }
    }

    pub fn with_mark_no_children(self, enable: bool) -> (r: Self)
        ensures
            r.no_children() == enable,
            r.invalidates_all() == self.invalidates_all(),
            r.path() == self.path(),
            r.root() == self.root(),
            r.drive() == self.drive(),
            r.meta() == self.meta(),
            r.local_info() == self.local_info(),
    {
        let o = self.options;
        let options = if enable {
            o | MARK_NO_CHILDREN
        } else {
            o & !MARK_NO_CHILDREN
        };
        assert((o | 2u32) & 2u32 != 0u32) by (bit_vector);
        assert((o & !2u32) & 2u32 == 0u32) by (bit_vector);
        assert(((o | 2u32) & 1u32 != 0u32) == (o & 1u32 != 0u32)) by (bit_vector);
        assert(((o & !2u32) & 1u32 != 0u32) == (o & 1u32 != 0u32)) by (bit_vector);
        CrPlaceholder { options, ..self }
    }

    pub fn with_file_meta(self, file_meta: FileMetadata) -> (r: Self)
        ensures
            r.meta() == Some(file_meta),
            r.invalidates_all() == self.invalidates_all(),
            r.no_children() == self.no_children(),
            r.path() == self.path(),
            r.root() == self.root(),
            r.drive() == self.drive(),
            r.local_info() == self.local_info(),
    {
        CrPlaceholder { file_meta: Some(file_meta), ..self }
    }

    /// Takes the inventory entry from a listed remote entry.
    pub fn with_remote_file(self, remote: &RemoteFile) -> (r: Self)
        ensures
            r.meta() is Some,
            remote_entry_fields_ok(r.meta()->0, self.drive(), self.path(), remote@),
            r.invalidates_all() == self.invalidates_all(),
            r.no_children() == self.no_children(),
            r.path() == self.path(),
            r.root() == self.root(),
            r.drive() == self.drive(),
            r.local_info() == self.local_info(),
    {
        let meta = remote_file_metadata(self.drive_id.as_str(), self.local_path.as_str(), remote);
        CrPlaceholder { file_meta: Some(meta), ..self }
    }

    /// The inventory entry to write, if set.
    pub fn file_meta(&self) -> (r: Option<&FileMetadata>)
        ensures
            match r {
                Some(m) => self.meta() == Some(*m),
                None => self.meta() is None,
            },
    {
        match &self.file_meta {
            Some(m) => Some(m),
            None => None,
        }
    }

    /// What the platform is asked to write: the inventory entry's kind,
    /// size, times and etag (as the identity blob), always in sync and
    /// overwriting, with this builder's options. Refused without an entry.
    pub fn placeholder_spec(&self) -> (r: Result<VirtualPlaceholderSpec, String>)
        ensures
            self.meta() is None ==> r is Err && r->Err_0@ == "File metadata is not set"@,
            self.meta() is Some ==> r is Ok && {
                let m = self.meta()->0;
                let s = r->Ok_0;
                &&& s.target_path@ == self.path()
                &&& s.sync_root@ == self.root()
                &&& s.is_directory == m.is_folder
                &&& s.metadata == (VirtualFileMetadata {
                    size: m.size as u64,
                    created_unix: m.created_at,
                    modified_unix: m.updated_at,
                })
                &&& s.identity_blob@ == encode_utf8(m.etag@)
                &&& s.mark_in_sync
                &&& s.overwrite
                &&& s.dehydrate_on_update == self.invalidates_all()
                &&& s.has_no_children == self.no_children()
            },
    {
        let m = match &self.file_meta {
            Some(m) => m,
            None => {
                let mut msg = String::new();
                push_str(&mut msg, "File metadata is not set");
                return Err(msg);
            },
        };
        let mut blob: Vec<u8> = Vec::new();
        let bytes = m.etag.as_str().as_bytes();
        let mut i: usize = 0;
        while i < bytes.len()
            invariant
                i <= bytes@.len(),
                blob@ == bytes@.subrange(0, i as int),
            decreases bytes.len() - i,
        {
            blob.push(bytes[i]);
            assert(blob@ =~= bytes@.subrange(0, i + 1));
            i = i + 1;
        }
        assert(bytes@.subrange(0, bytes@.len() as int) =~= bytes@);
        Ok(
            VirtualPlaceholderSpec {
                target_path: self.local_path.clone(),
                sync_root: self.sync_root.clone(),
                is_directory: m.is_folder,
                metadata: VirtualFileMetadata {
                    size: m.size as u64,
                    created_unix: m.created_at,
                    modified_unix: m.updated_at,
                },
                identity_blob: blob,
                mark_in_sync: true,
                overwrite: true,
                dehydrate_on_update: self.options & INVALIDATE_ALL_RANGE != 0,
                has_no_children: self.options & MARK_NO_CHILDREN != 0,
            },
        )
    }

    /// Only placeholders carry a sync error state.
    pub fn updates_sync_error_state(&self) -> (r: bool)
        ensures
            r == self.local_info().is_virtual_placeholder,
    {
        self.local_file_info.is_virtual_placeholder
    }
}

/// The placeholder entry for a listed child: its path relative to the
/// mount, kind, size, times and content version (as UTF-8 bytes) as
/// identity blob; always in sync and overwriting.
pub open spec fn placeholder_entry_ok(
    e: PlaceholderEntry,
    remote: RemoteFileView,
    relative: Seq<char>,
    created: i64,
    modified: i64,
    size: u64,
) -> bool {
    &&& e.relative_path@ == relative
    &&& e.is_directory == (remote.file_type == RemoteFileType::Folder)
    &&& e.size == size
    &&& e.created_unix == created
    &&& e.modified_unix == modified
    &&& e.blob@ == encode_utf8(
        match remote.primary_entity {
            Some(p) => p,
            None => Seq::<char>::empty(),
        },
    )
    &&& e.mark_in_sync
    &&& e.overwrite
}

/// Whether a listed child converts: its URI parsed, lies below the mount's
/// base, and both times parse as UTC timestamps.
pub open spec fn entry_converts(remote: RemoteFileView, uri_path: Result<Seq<char>, Seq<char>>, base_path: Seq<char>, separator: char) -> bool {
    match uri_path {
        Ok(p) => relative_under_base(p, base_path, separator) is Some && spec_utc_timestamp(remote.created_at)
            is Some && spec_utc_timestamp(remote.updated_at) is Some,
        Err(_) => false,
    }
}

pub open spec fn uri_result_view(r: Result<String, String>) -> Result<Seq<char>, Seq<char>> {
    match r {
        Ok(p) => Ok(p@),
        Err(e) => Err(e@),
    }
}

fn utf8_bytes(s: &str) -> (r: Vec<u8>)
    ensures
        r@ == encode_utf8(s@),
{
    let bytes = s.as_bytes();
    let mut out: Vec<u8> = Vec::new();
    let mut i: usize = 0;
    while i < bytes.len()
        invariant
            i <= bytes@.len(),
            out@ == bytes@.subrange(0, i as int),
        decreases bytes.len() - i,
    {
        out.push(bytes[i]);
        assert(out@ =~= bytes@.subrange(0, i + 1));
        i = i + 1;
    }
    assert(bytes@.subrange(0, bytes@.len() as int) =~= bytes@);
    out
}

/// The placeholder entry of a listed child. `uri_path` is the path part of
/// its URI, or why the URI did not parse; a child outside the mount's base
/// is refused with "Path is not under remote base", one whose times do not
/// parse with the parser's message.
pub fn cloud_file_to_placeholder_entry(
    remote: &RemoteFile,
    uri_path: &Result<String, String>,
    base_path: &str,
    separator: char,
) -> (r: Result<PlaceholderEntry, String>)
    ensures
        r is Ok <==> entry_converts(remote@, uri_result_view(*uri_path), base_path@, separator),
        r is Ok ==> placeholder_entry_ok(
            r->Ok_0,
            remote@,
            relative_under_base(uri_result_view(*uri_path)->Ok_0, base_path@, separator)->0,
            spec_utc_timestamp(remote@.created_at)->0,
            spec_utc_timestamp(remote@.updated_at)->0,
            remote.size as u64,
        ),
        uri_path is Err ==> r is Err && r->Err_0 == uri_path->Err_0,
{
    let p = match uri_path {
        Ok(p) => p,
        Err(e) => {
            return Err(e.clone());
        },
    };
    let relative_path = match remote_path_to_local_relative_path(p.as_str(), base_path, separator) {
        Ok(rel) => rel,
        Err(e) => {
            return Err(e);
        },
    };
    let created_unix = match parse_utc_timestamp(remote.created_at.as_str()) {
        Some(t) => t,
        None => {
            let mut msg = String::new();
            push_str(&mut msg, "invalid creation time");
            return Err(msg);
        },
    };
    let modified_unix = match parse_utc_timestamp(remote.updated_at.as_str()) {
        Some(t) => t,
        None => {
            let mut msg = String::new();
            push_str(&mut msg, "invalid modification time");
            return Err(msg);
        },
    };
    let entity = string_or_empty(&remote.primary_entity);
    Ok(
        PlaceholderEntry {
            relative_path,
            is_directory: remote.file_type == RemoteFileType::Folder,
            size: remote.size as u64,
            created_unix,
            modified_unix,
            blob: utf8_bytes(entity.as_str()),
            mark_in_sync: true,
            overwrite: true,
        },
    )
}

/// The size a file placeholder advertises: the listing's size, or the
/// inventory's when the listing reports less (a stale zero while the
/// server finalises an upload); never negative.
pub open spec fn merged_size(listed: i64, inventory: Option<i64>) -> u64 {
    let inv = match inventory {
        Some(s) => s,
        None => 0,
    };
    let m = if listed >= inv { listed } else { inv };
    if m >= 0 { m as u64 } else { 0 }
}

/// Like [`cloud_file_to_placeholder_entry`], with the size of a file merged
/// with the inventory's (see [`merged_size`]).
pub fn cloud_file_to_placeholder_entry_merged(
    remote: &RemoteFile,
    uri_path: &Result<String, String>,
    base_path: &str,
    separator: char,
    inventory: Option<&FileMetadata>,
) -> (r: Result<PlaceholderEntry, String>)
    ensures
        r is Ok <==> entry_converts(remote@, uri_result_view(*uri_path), base_path@, separator),
        r is Ok ==> placeholder_entry_ok(
            r->Ok_0,
            remote@,
            relative_under_base(uri_result_view(*uri_path)->Ok_0, base_path@, separator)->0,
            spec_utc_timestamp(remote@.created_at)->0,
            spec_utc_timestamp(remote@.updated_at)->0,
            if remote.file_type == RemoteFileType::Folder {
                remote.size as u64
            } else {
                merged_size(
                    remote.size,
                    match inventory {
                        Some(m) => Some(m.size),
                        None => None,
                    },
                )
            },
        ),
{
    let mut entry = match cloud_file_to_placeholder_entry(remote, uri_path, base_path, separator) {
        Ok(e) => e,
        Err(e) => {
            return Err(e);
        },
    };
    if !entry.is_directory {
        let inv = match inventory {
            Some(m) => m.size,
            None => 0,
        };
        let merged = if remote.size >= inv {
            remote.size
        } else {
            inv
        };
        entry.size = if merged >= 0 {
            merged as u64
        } else {
            0
        };
    }
    Ok(entry)
}

/// The inventory entry recorded for a listed child of `local_dir` when a
/// directory is populated: like [`remote_entry_fields_ok`], with times that
/// must parse as UTC timestamps.
pub open spec fn listed_entry_ok(
    m: FileMetadata,
    drive_id: Seq<char>,
    local_dir: Seq<char>,
    remote: RemoteFileView,
    size: i64,
) -> bool {
    &&& m.id == 0
    &&& m.drive_id@ == drive_id
    &&& m.local_path@ == spec_path_join(local_dir, remote.name)
    &&& m.is_folder == (remote.file_type == RemoteFileType::Folder)
    &&& m.created_at == spec_utc_timestamp(remote.created_at)->0
    &&& m.updated_at == spec_utc_timestamp(remote.updated_at)->0
    &&& m.size == size
    &&& m.etag@ == match remote.primary_entity {
        Some(e) => e,
        None => Seq::empty(),
    }
    &&& pairs_view(m.metadata@) == with_pair(
        match remote.metadata {
            Some(p) => p,
            None => Seq::empty(),
        },
        inventory_remote_uri_key(),
        remote.path,
    )
    &&& m.permissions@ == match remote.permission {
        Some(p) => p,
        None => Seq::empty(),
    }
    &&& m.shared == match remote.shared {
        Some(b) => b,
        None => false,
    }
    &&& m.conflict_state is None
}

/// The inventory entry of a listed child of `local_dir`; refused when its
/// times do not parse.
pub fn cloud_file_to_metadata_entry(remote: &RemoteFile, drive_id: &str, local_dir: &str) -> (r: Result<
    FileMetadata,
    String,
>)
    ensures
        r is Ok <==> (spec_utc_timestamp(remote@.created_at) is Some && spec_utc_timestamp(remote@.updated_at)
            is Some),
        r is Ok ==> listed_entry_ok(r->Ok_0, drive_id@, local_dir@, remote@, remote.size),
{
    let local_path = path_join(local_dir, remote.name.as_str());
    let created_at = match parse_utc_timestamp(remote.created_at.as_str()) {
        Some(t) => t,
        None => {
            let mut msg = String::new();
            push_str(&mut msg, "invalid creation time");
            return Err(msg);
        },
    };
    let updated_at = match parse_utc_timestamp(remote.updated_at.as_str()) {
        Some(t) => t,
        None => {
            let mut msg = String::new();
            push_str(&mut msg, "invalid modification time");
            return Err(msg);
        },
    };
    let mut metadata = match &remote.metadata {
        Some(m) => clone_pairs(m),
        None => Vec::new(),
    };
    assert(pairs_view(metadata@) == match remote@.metadata {
        Some(p) => p,
        None => Seq::<(Seq<char>, Seq<char>)>::empty(),
    });
    set_pair(&mut metadata, inventory_remote_uri_key_text(), remote.path.clone());
    Ok(
        FileMetadata {
            id: 0,
            drive_id: drive_id.to_owned(),
            is_folder: remote.file_type == RemoteFileType::Folder,
            local_path,
            created_at,
            updated_at,
            etag: string_or_empty(&remote.primary_entity),
            metadata,
            permissions: string_or_empty(&remote.permission),
            shared: match remote.shared {
                Some(b) => b,
                None => false,
            },
            size: remote.size,
            conflict_state: None,
        },
    )
}

/// The size the inventory holds for `path`, if it has an entry for it.
pub open spec fn inventory_size_at(inventory: Seq<(String, FileMetadata)>, path: Seq<char>) -> Option<i64> {
    match find_from(inventory, path, 0) {
        Some(j) => Some(inventory[j].1.size),
        None => None,
    }
}

/// Whether both times of a listed child parse as UTC timestamps.
pub open spec fn times_parse(remote: RemoteFileView) -> bool {
    spec_utc_timestamp(remote.created_at) is Some && spec_utc_timestamp(remote.updated_at) is Some
}

/// The positions of the listed children whose times parse, in order.
pub open spec fn timed_positions(listing: Seq<RemoteFile>) -> Seq<int>
    decreases listing.len(),
{
    if listing.len() == 0 {
        Seq::empty()
    } else {
        let rest = timed_positions(listing.drop_last());
        if times_parse(listing.last()@) {
            rest.push(listing.len() - 1)
        } else {
            rest
        }
    }
}

/// The size recorded for a listed child of `local_dir`: a folder keeps the
/// listed size, a file the larger of the listed size and the inventory's.
pub open spec fn recorded_size(remote: RemoteFileView, local_dir: Seq<char>, inventory: Seq<(String, FileMetadata)>) -> i64 {
    if remote.file_type == RemoteFileType::Folder {
        remote.size
    } else {
        match inventory_size_at(inventory, spec_path_join(local_dir, remote.name)) {
            Some(s) => if s > remote.size {
                s
            } else {
                remote.size
            },
            None => remote.size,
        }
    }
}

/// The inventory entry recorded for one listed child (see [`listed_entry_ok`]
/// and [`recorded_size`]).
pub open spec fn recorded_entry(
    m: FileMetadata,
    drive_id: Seq<char>,
    local_dir: Seq<char>,
    remote: RemoteFileView,
    inventory: Seq<(String, FileMetadata)>,
) -> bool {
    listed_entry_ok(m, drive_id, local_dir, remote, recorded_size(remote, local_dir, inventory))
}

/// The inventory entries recorded when a directory listing arrives: one per
/// child whose times parse, in listing order, a file keeping the larger of
/// the listed size and the size already in the inventory.
pub fn placeholder_inventory_entries(
    listing: &Vec<RemoteFile>,
    drive_id: &str,
    local_dir: &str,
    inventory: &Vec<(String, FileMetadata)>,
) -> (r: Vec<FileMetadata>)
    ensures
        r@.len() == timed_positions(listing@).len(),
        forall|k: int|
            0 <= k < r@.len() ==> #[trigger] recorded_entry(
                r@[k],
                drive_id@,
                local_dir@,
                listing@[timed_positions(listing@)[k]]@,
                inventory@,
            ),
{
    let mut out: Vec<FileMetadata> = Vec::new();
    let mut i: usize = 0;
    while i < listing.len()
        invariant
            i <= listing@.len(),
            out@.len() == timed_positions(listing@.subrange(0, i as int)).len(),
            forall|k: int|
                0 <= k < out@.len() ==> #[trigger] recorded_entry(
                    out@[k],
                    drive_id@,
                    local_dir@,
                    listing@[timed_positions(listing@.subrange(0, i as int))[k]]@,
                    inventory@,
                ),
        decreases listing.len() - i,
    {
        let ghost pre = listing@.subrange(0, i as int);
        let ghost post = listing@.subrange(0, i + 1);
        assert(post.drop_last() =~= pre);
        assert(post.last() == listing@[i as int]);
        match cloud_file_to_metadata_entry(&listing[i], drive_id, local_dir) {
            Ok(mut entry) => {
                if !entry.is_folder {
                    match crate::sync_plan::find_entry(inventory, entry.local_path.as_str()) {
                        Some(j) => {
                            let known = inventory[j].1.size;
                            if known > entry.size {
                                entry.size = known;
                            }
                        },
                        None => {},
                    }
                }
                assert(recorded_entry(entry, drive_id@, local_dir@, listing@[i as int]@, inventory@));
                let ghost before = out@;
                out.push(entry);
                assert(timed_positions(post) == timed_positions(pre).push(i as int));
                assert forall|k: int| 0 <= k < out@.len() implies #[trigger] recorded_entry(
                    out@[k],
                    drive_id@,
                    local_dir@,
                    listing@[timed_positions(post)[k]]@,
                    inventory@,
                ) by {
                    if k < before.len() {
                        assert(out@[k] == before[k]);
                    }
                }
            },
            Err(_) => {
                assert(timed_positions(post) == timed_positions(pre));
            },
        }
        i = i + 1;
    }
    assert(listing@.subrange(0, listing@.len() as int) =~= listing@);
    out
}

/// Whether a listed child gets a placeholder: it is not a share redirect
/// and it converts (see [`entry_converts`]).
pub open spec fn gets_placeholder(
    item: (RemoteFile, Result<String, String>),
    base_path: Seq<char>,
    separator: char,
    redirect_key: Seq<char>,
) -> bool {
    !is_redirect(item.0@, redirect_key) && entry_converts(item.0@, uri_result_view(item.1), base_path, separator)
}

/// The positions of the listed children that get a placeholder, in order.
pub open spec fn placeholder_positions(
    listing: Seq<(RemoteFile, Result<String, String>)>,
    base_path: Seq<char>,
    separator: char,
    redirect_key: Seq<char>,
) -> Seq<int>
    decreases listing.len(),
{
    if listing.len() == 0 {
        Seq::empty()
    } else {
        let rest = placeholder_positions(listing.drop_last(), base_path, separator, redirect_key);
        if gets_placeholder(listing.last(), base_path, separator, redirect_key) {
            rest.push(listing.len() - 1)
        } else {
            rest
        }
    }
}

/// The placeholder entry of one listed child of `local_dir`: its relative
/// path below the base, its times, and for a file the size merged with the
/// inventory's entry at `local_dir` joined with the child's name.
pub open spec fn placeholder_entry_for(
    e: PlaceholderEntry,
    item: (RemoteFile, Result<String, String>),
    local_dir: Seq<char>,
    base_path: Seq<char>,
    separator: char,
    inventory: Seq<(String, FileMetadata)>,
) -> bool {
    let remote = item.0@;
    placeholder_entry_ok(
        e,
        remote,
        relative_under_base(uri_result_view(item.1)->Ok_0, base_path, separator)->0,
        spec_utc_timestamp(remote.created_at)->0,
        spec_utc_timestamp(remote.updated_at)->0,
        if remote.file_type == RemoteFileType::Folder {
            remote.size as u64
        } else {
            merged_size(remote.size, inventory_size_at(inventory, spec_path_join(local_dir, remote.name)))
        },
    )
}

/// The placeholder entries of a directory listing, in listing order: share
/// redirects are left out, so is every child that does not convert; files
/// advertise the size merged with the inventory's.
pub fn build_placeholder_entries(
    listing: &Vec<(RemoteFile, Result<String, String>)>,
    local_dir: &str,
    base_path: &str,
    separator: char,
    redirect_key: &str,
    inventory: &Vec<(String, FileMetadata)>,
) -> (r: Vec<PlaceholderEntry>)
    ensures
        r@.len() == placeholder_positions(listing@, base_path@, separator, redirect_key@).len(),
        forall|k: int|
            0 <= k < r@.len() ==> #[trigger] placeholder_entry_for(
                r@[k],
                listing@[placeholder_positions(listing@, base_path@, separator, redirect_key@)[k]],
                local_dir@,
                base_path@,
                separator,
                inventory@,
            ),
{
    let mut out: Vec<PlaceholderEntry> = Vec::new();
    let mut i: usize = 0;
    while i < listing.len()
        invariant
            i <= listing@.len(),
            out@.len() == placeholder_positions(listing@.subrange(0, i as int), base_path@, separator, redirect_key@).len(),
            forall|k: int|
                0 <= k < out@.len() ==> #[trigger] placeholder_entry_for(
                    out@[k],
                    listing@[placeholder_positions(
                        listing@.subrange(0, i as int),
                        base_path@,
                        separator,
                        redirect_key@,
                    )[k]],
                    local_dir@,
                    base_path@,
                    separator,
                    inventory@,
                ),
        decreases listing.len() - i,
    {
        let ghost pre = listing@.subrange(0, i as int);
        let ghost post = listing@.subrange(0, i + 1);
        assert(post.drop_last() =~= pre);
        assert(post.last() == listing@[i as int]);
        let file = &listing[i].0;
        let mut added = false;
        if !is_symbolic_link(file, redirect_key) {
            let local_path = path_join(local_dir, file.name.as_str());
            let inv = match crate::sync_plan::find_entry(inventory, local_path.as_str()) {
                Some(j) => Some(&inventory[j].1),
                None => None,
            };
            match cloud_file_to_placeholder_entry_merged(file, &listing[i].1, base_path, separator, inv) {
                Ok(entry) => {
                    assert(placeholder_entry_for(
                        entry,
                        listing@[i as int],
                        local_dir@,
                        base_path@,
                        separator,
                        inventory@,
                    ));
                    let ghost before = out@;
                    out.push(entry);
                    added = true;
                    assert(placeholder_positions(post, base_path@, separator, redirect_key@) == placeholder_positions(
                        pre,
                        base_path@,
                        separator,
                        redirect_key@,
                    ).push(i as int));
                    assert forall|k: int| 0 <= k < out@.len() implies #[trigger] placeholder_entry_for(
                        out@[k],
                        listing@[placeholder_positions(post, base_path@, separator, redirect_key@)[k]],
                        local_dir@,
                        base_path@,
                        separator,
                        inventory@,
                    ) by {
                        if k < before.len() {
                            assert(out@[k] == before[k]);
                        }
                    }
                },
                Err(_) => {},
            }
        }
        if !added {
            assert(placeholder_positions(post, base_path@, separator, redirect_key@) == placeholder_positions(
                pre,
                base_path@,
                separator,
                redirect_key@,
            ));
        }
        i = i + 1;
    }
    assert(listing@.subrange(0, listing@.len() as int) =~= listing@);
    out
}

} // verus!
