//! Remote file descriptions as listed by the server, and the clock and
//! timestamp services the sync logic needs.

use vstd::prelude::*;

verus! {

/// Kind of a remote entry.
#[derive(Debug, Clone, Copy, PartialEq, Eq, Structural)]
pub enum RemoteFileType {
    File,
    Folder,
}

/// A file or folder as the server lists it.
#[derive(Debug)]
pub struct RemoteFile {
    pub file_type: RemoteFileType,
    pub name: String,
    /// Full Cloudreve URI of the entry.
    pub path: String,
    pub size: i64,
    /// RFC 3339 creation time.
    pub created_at: String,
    /// RFC 3339 modification time.
    pub updated_at: String,
    /// Identifier of the current content version.
    pub primary_entity: Option<String>,
    pub permission: Option<String>,
    pub shared: Option<bool>,
    pub metadata: Option<Vec<(String, String)>>,
}

/// The text of an optional string.
pub open spec fn opt_view(s: Option<String>) -> Option<Seq<char>> {
    match s {
        Some(v) => Some(v@),
        None => None,
    }
}

/// The texts of key/value pairs.
pub open spec fn pairs_view(v: Seq<(String, String)>) -> Seq<(Seq<char>, Seq<char>)> {
    v.map_values(|p: (String, String)| (p.0@, p.1@))
}

/// The abstract content of a [`RemoteFile`].
pub struct RemoteFileView {
    pub file_type: RemoteFileType,
    pub name: Seq<char>,
    pub path: Seq<char>,
    pub size: i64,
    pub created_at: Seq<char>,
    pub updated_at: Seq<char>,
    pub primary_entity: Option<Seq<char>>,
    pub permission: Option<Seq<char>>,
    pub shared: Option<bool>,
    pub metadata: Option<Seq<(Seq<char>, Seq<char>)>>,
}

impl View for RemoteFile {
    type V = RemoteFileView;

    open spec fn view(&self) -> RemoteFileView {
        RemoteFileView {
            file_type: self.file_type,
            name: self.name@,
            path: self.path@,
            size: self.size,
            created_at: self.created_at@,
            updated_at: self.updated_at@,
            primary_entity: opt_view(self.primary_entity),
            permission: opt_view(self.permission),
            shared: self.shared,
            metadata: match self.metadata {
                Some(m) => Some(pairs_view(m@)),
                None => None,
            },
        }
    }
}

/// A copy of an optional string.
pub fn clone_opt_string(s: &Option<String>) -> (r: Option<String>)
    ensures
        r == *s,
{
    match s {
        Some(v) => Some(v.clone()),
        None => None,
    }
}

/// A copy of a list of key/value pairs.
pub fn clone_pairs(v: &Vec<(String, String)>) -> (r: Vec<(String, String)>)
    ensures
        pairs_view(r@) == pairs_view(v@),
{
    let mut out: Vec<(String, String)> = Vec::new();
    let mut i: usize = 0;
    while i < v.len()
        invariant
            i <= v@.len(),
            out@ =~= v@.subrange(0, i as int),
        decreases v.len() - i,
    {
        let k = v[i].0.clone();
        let val = v[i].1.clone();
        out.push((k, val));
        i = i + 1;
    }
    assert(out@ =~= v@);
    assert(pairs_view(out@) =~= pairs_view(v@));
    out
}

impl RemoteFile {
    /// An identical copy.
    pub fn duplicate(&self) -> (r: RemoteFile)
        ensures
            r@ == self@,
    {
        RemoteFile {
            file_type: self.file_type,
            name: self.name.clone(),
            path: self.path.clone(),
            size: self.size,
            created_at: self.created_at.clone(),
            updated_at: self.updated_at.clone(),
            primary_entity: clone_opt_string(&self.primary_entity),
            permission: clone_opt_string(&self.permission),
            shared: self.shared,
            metadata: match &self.metadata {
                Some(m) => Some(clone_pairs(m)),
                None => None,
            },
        }
    }

    pub fn is_folder(&self) -> (r: bool)
        ensures
            r == (self.file_type == RemoteFileType::Folder),
    {
        match self.file_type {
            RemoteFileType::Folder => true,
            RemoteFileType::File => false,
        }
    }
}

/// Seconds since the epoch of a date-time in chrono's relaxed RFC 3339 form
/// (`str::parse::<DateTime<Utc>>`), if it parses.
pub uninterp spec fn spec_utc_timestamp(s: Seq<char>) -> Option<i64>;

/// Seconds since the epoch of a strict RFC 3339 date-time
/// (`DateTime::parse_from_rfc3339`), if it parses.
pub uninterp spec fn spec_rfc3339_timestamp(s: Seq<char>) -> Option<i64>;

/// Calls `str::parse::<chrono::DateTime<Utc>>` and then `DateTime::timestamp`;
/// the result is named by `spec_utc_timestamp` and depends on the text only.
#[verifier::external_body]
pub(crate) fn parse_utc_timestamp(s: &str) -> (r: Option<i64>)
    ensures
        r == spec_utc_timestamp(s@),
{
    s.parse::<chrono::DateTime<chrono::Utc>>().ok().map(|dt| dt.timestamp())
}

/// Calls `chrono::DateTime::parse_from_rfc3339` and then `DateTime::timestamp`;
/// the result is named by `spec_rfc3339_timestamp` and depends on the text only.
#[verifier::external_body]
pub(crate) fn parse_rfc3339_timestamp(s: &str) -> (r: Option<i64>)
    ensures
        r == spec_rfc3339_timestamp(s@),
{
    chrono::DateTime::parse_from_rfc3339(s).ok().map(|dt| dt.timestamp())
}

/// The current UTC time as `YYYYMMDDhhmmss` (`chrono::Utc::now` formatted with
/// `%Y%m%d%H%M%S`). It depends on the clock, so nothing is stated of it.
#[verifier::external_body]
pub(crate) fn utc_now_compact_stamp() -> String {
    chrono::Utc::now().format("%Y%m%d%H%M%S").to_string()
}

} // verus!
