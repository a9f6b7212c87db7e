//! The file-provider IPC endpoint: validation of hydration requests, the
//! in-memory buffer a hydration writes into, and the wire form of answers.

use vstd::prelude::*;
use crate::platform::{FileProviderItemState, PlaceholderEntry};
use crate::paths::{path_join, spec_path_join};
use crate::text::{decimal, push_decimal, push_str, str_eq};
use base64::Engine;

verus! {

/// Largest hydration the IPC endpoint serves in one request (8 MiB).
pub const MAX_FETCH_DATA_BYTES: u64 = 8 * 1024 * 1024;

/// Why a hydration request is refused.
#[derive(Debug, Clone, Copy, PartialEq, Eq, Structural)]
pub enum FetchRangeError {
    /// `range_end <= range_start`.
    EmptyRange,
    /// More than [`MAX_FETCH_DATA_BYTES`] requested.
    TooLarge { total_bytes: u64 },
}

/// Checks a requested range and returns its length.
pub fn validate_fetch_range(range_start: u64, range_end: u64) -> (r: Result<u64, FetchRangeError>)
    ensures
        range_end <= range_start ==> r == Err::<u64, FetchRangeError>(FetchRangeError::EmptyRange),
        range_end > range_start && range_end - range_start > MAX_FETCH_DATA_BYTES ==> r == Err::<
            u64,
            FetchRangeError,
        >(FetchRangeError::TooLarge { total_bytes: (range_end - range_start) as u64 }),
        range_end > range_start && range_end - range_start <= MAX_FETCH_DATA_BYTES ==> r == Ok::<
            u64,
            FetchRangeError,
        >((range_end - range_start) as u64),
{
    if range_end <= range_start {
        return Err(FetchRangeError::EmptyRange);
    }
    let total_bytes = range_end - range_start;
    if total_bytes > MAX_FETCH_DATA_BYTES {
        return Err(FetchRangeError::TooLarge { total_bytes });
    }
    Ok(total_bytes)
}

impl FetchRangeError {
    /// The message sent back for this refusal.
    pub fn to_message(&self) -> (r: String)
        ensures
            r@ == match *self {
                FetchRangeError::EmptyRange => "invalid fetch range: end <= start"@,
                FetchRangeError::TooLarge { total_bytes } => "fetch range too large: "@ + decimal(
                    total_bytes as nat,
                ) + " bytes"@,
            },
    {
        let mut out = String::new();
        match self {
            FetchRangeError::EmptyRange => push_str(&mut out, "invalid fetch range: end <= start"),
            FetchRangeError::TooLarge { total_bytes } => {
                push_str(&mut out, "fetch range too large: ");
                push_decimal(&mut out, *total_bytes);
                push_str(&mut out, " bytes");
            },
        }
        out
    }
}

/// The category name of an item state on the wire.
pub open spec fn category_text(state: FileProviderItemState) -> Seq<char> {
    match state {
        FileProviderItemState::CloudOnly => "CloudOnly"@,
        FileProviderItemState::Syncing => "Syncing"@,
        FileProviderItemState::Synced => "Synced"@,
        FileProviderItemState::Error => "Error"@,
    }
}

/// The category name of an item state on the wire.
pub fn item_state_category(state: FileProviderItemState) -> (r: &'static str)
    ensures
        r@ == category_text(state),
{
    match state {
        FileProviderItemState::CloudOnly => "CloudOnly",
        FileProviderItemState::Syncing => "Syncing",
        FileProviderItemState::Synced => "Synced",
        FileProviderItemState::Error => "Error",
    }
}

/// Why a write into the hydration buffer is refused.
#[derive(Debug, Clone, Copy, PartialEq, Eq, Structural)]
pub enum FetchWriterError {
    /// The write starts before the buffer's first offset.
    OffsetUnderflow,
    /// The write would end past the buffer: `end > len`.
    Overflow { end: usize, len: usize },
}

impl FetchWriterError {
    /// The message of this error.
    pub fn to_message(&self) -> (r: String)
        ensures
            r@ == match *self {
                FetchWriterError::OffsetUnderflow => "offset underflow in fetch writer"@,
                FetchWriterError::Overflow { end, len } => "fetch writer overflow: "@ + decimal(end as nat)
                    + " > "@ + decimal(len as nat),
            },
    {
        let mut out = String::new();
        match self {
            FetchWriterError::OffsetUnderflow => push_str(&mut out, "offset underflow in fetch writer"),
            FetchWriterError::Overflow { end, len } => {
                push_str(&mut out, "fetch writer overflow: ");
                push_decimal(&mut out, *end as u64);
                push_str(&mut out, " > ");
                push_decimal(&mut out, *len as u64);
            },
        }
        out
    }
}

/// A zero-initialised buffer that receives the bytes of one hydration,
/// addressed by file offset starting at `base_offset`.
#[derive(Debug)]
pub struct InMemoryFetchDataWriter {
    buf: Vec<u8>,
    base_offset: u64,
}

impl InMemoryFetchDataWriter {
    /// The buffer's bytes.
    pub closed spec fn bytes(&self) -> Seq<u8> {
        self.buf@
    }

    /// The file offset of the buffer's first byte.
    pub closed spec fn base(&self) -> u64 {
        self.base_offset
    }

    /// A buffer of `total_bytes` zero bytes; refused when the size does not
    /// fit in memory addresses.
    pub fn new(total_bytes: u64, base_offset: u64) -> (r: Result<Self, String>)
        ensures
            total_bytes > usize::MAX ==> r is Err,
            total_bytes <= usize::MAX ==> r is Ok && r->Ok_0.bytes() == Seq::new(
                total_bytes as nat,
                |i: int| 0u8,
            ) && r->Ok_0.base() == base_offset,
    {
        if total_bytes > usize::MAX as u64 {
            let mut msg = String::new();
            push_str(&mut msg, "fetch range too large for buffer allocation");
            return Err(msg);
        }
        let n = total_bytes as usize;
        let buf = vec![0u8; n];
        assert(buf@ =~= Seq::new(total_bytes as nat, |i: int| 0u8));
        Ok(InMemoryFetchDataWriter { buf, base_offset })
    }

    /// The bytes received.
    pub fn into_bytes(self) -> (r: Vec<u8>)
        ensures
            r@ == self.bytes(),
    {
        self.buf
    }

    /// Copies `data` to file offset `offset`.
    pub fn write_at(&mut self, data: &[u8], offset: u64) -> (r: Result<(), FetchWriterError>)
        requires
            offset >= old(self).base() ==> (offset - old(self).base()) + data@.len() <= usize::MAX,
        ensures
            final(self).base() == old(self).base(),
            offset < old(self).base() ==> r == Err::<(), FetchWriterError>(FetchWriterError::OffsetUnderflow)
                && final(self).bytes() == old(self).bytes(),
            offset >= old(self).base() ==> {
                let start = offset - old(self).base();
                let end = start + data@.len();
                if end > old(self).bytes().len() {
                    &&& r == Err::<(), FetchWriterError>(
                        FetchWriterError::Overflow { end: end as usize, len: old(self).bytes().len() as usize },
                    )
                    &&& final(self).bytes() == old(self).bytes()
                } else {
                    &&& r is Ok
                    &&& final(self).bytes() == old(self).bytes().subrange(0, start) + data@
                        + old(self).bytes().subrange(end, old(self).bytes().len() as int)
                }
            },
    {
        if offset < self.base_offset {
            return Err(FetchWriterError::OffsetUnderflow);
        }
        let start = (offset - self.base_offset) as usize;
        let end = start + data.len();
        if end > self.buf.len() {
            return Err(FetchWriterError::Overflow { end, len: self.buf.len() });
        }
        let ghost before = self.buf@;
        let mut i: usize = 0;
        while i < data.len()
            invariant
                self.base_offset == old(self).base_offset,
                start + data@.len() == end,
                end <= self.buf@.len(),
                before.len() == self.buf@.len(),
                i <= data@.len(),
                self.buf@ =~= before.subrange(0, start as int) + data@.subrange(0, i as int) + before.subrange(
                    start + i,
                    before.len() as int,
                ),
            decreases data.len() - i,
        {
            self.buf.set(start + i, data[i]);
            i = i + 1;
        }
        assert(data@.subrange(0, data@.len() as int) =~= data@);
        Ok(())
    }
}

/// A successful write leaves exactly the written bytes at its offset.
pub proof fn lemma_write_then_read(before: Seq<u8>, data: Seq<u8>, start: int)
    requires
        0 <= start,
        start + data.len() <= before.len(),
    ensures
        (before.subrange(0, start) + data + before.subrange(start + data.len(), before.len() as int)).subrange(
            start,
            start + data.len(),
        ) == data,
        (before.subrange(0, start) + data + before.subrange(start + data.len(), before.len() as int)).len()
            == before.len(),
{
    let after = before.subrange(0, start) + data + before.subrange(start + data.len(), before.len() as int);
    assert(after.subrange(start, start + data.len()) =~= data);
}

/// The base64 alphabet of RFC 4648.
pub open spec fn base64_char(v: int) -> char {
    if v < 26 {
        (65 + v) as char
    } else if v < 52 {
        (97 + v - 26) as char
    } else if v < 62 {
        (48 + v - 52) as char
    } else if v == 62 {
        '+'
    } else {
        '/'
    }
}

/// Standard base64 with `=` padding (RFC 4648, section 4).
pub open spec fn base64_standard(b: Seq<u8>) -> Seq<char>
    decreases b.len(),
{
    if b.len() == 0 {
        Seq::empty()
    } else {
        let b0 = b[0] as int;
        let b1 = if b.len() > 1 { b[1] as int } else { 0 };
        let b2 = if b.len() > 2 { b[2] as int } else { 0 };
        let c0 = base64_char(b0 / 4);
        let c1 = base64_char((b0 % 4) * 16 + b1 / 16);
        let c2 = base64_char((b1 % 16) * 4 + b2 / 64);
        let c3 = base64_char(b2 % 64);
        if b.len() == 1 {
            seq![c0, c1, '=', '=']
        } else if b.len() == 2 {
            seq![c0, c1, c2, '=']
        } else {
            seq![c0, c1, c2, c3] + base64_standard(b.subrange(3, b.len() as int))
        }
    }
}

/// `base64::engine::general_purpose::STANDARD.encode`: standard alphabet with
/// padding, as RFC 4648 defines it.
#[verifier::external_body]
fn base64_standard_encode(b: &[u8]) -> (r: String)
    ensures
        r@ == base64_standard(b@),
{
    base64::engine::general_purpose::STANDARD.encode(b)
}

/// A placeholder entry as sent over the IPC socket.
#[derive(Debug)]
pub struct PlaceholderEntryIpc {
    pub relative_path: String,
    pub is_directory: bool,
    pub size: u64,
    pub created_unix: i64,
    pub modified_unix: i64,
    pub blob_base64: String,
    pub mark_in_sync: bool,
    pub overwrite: bool,
}

/// The wire form of a placeholder entry: the identity blob becomes base64.
pub fn placeholder_entry_to_ipc(entry: PlaceholderEntry) -> (r: PlaceholderEntryIpc)
    ensures
        r.relative_path == entry.relative_path,
        r.is_directory == entry.is_directory,
        r.size == entry.size,
        r.created_unix == entry.created_unix,
        r.modified_unix == entry.modified_unix,
        r.blob_base64@ == base64_standard(entry.blob@),
        r.mark_in_sync == entry.mark_in_sync,
        r.overwrite == entry.overwrite,
{
    let blob_base64 = base64_standard_encode(entry.blob.as_slice());
    PlaceholderEntryIpc {
        relative_path: entry.relative_path,
        is_directory: entry.is_directory,
        size: entry.size,
        created_unix: entry.created_unix,
        modified_unix: entry.modified_unix,
        blob_base64,
        mark_in_sync: entry.mark_in_sync,
        overwrite: entry.overwrite,
    }
}

/// The placeholders of a listing in their wire form, in order.
pub fn placeholders_to_ipc(entries: &Vec<PlaceholderEntry>) -> (r: Vec<PlaceholderEntryIpc>)
    ensures
        r@.len() == entries@.len(),
        forall|i: int|
            0 <= i < r@.len() ==> wire_entry_of(#[trigger] r@[i], entries@[i]),
{
    let mut out: Vec<PlaceholderEntryIpc> = Vec::new();
    let mut i: usize = 0;
    while i < entries.len()
        invariant
            i <= entries@.len(),
            out@.len() == i,
            forall|k: int| 0 <= k < i ==> wire_entry_of(#[trigger] out@[k], entries@[k]),
        decreases entries.len() - i,
    {
        let e = &entries[i];
        let w = PlaceholderEntryIpc {
            relative_path: e.relative_path.clone(),
            is_directory: e.is_directory,
            size: e.size,
            created_unix: e.created_unix,
            modified_unix: e.modified_unix,
            blob_base64: base64_standard_encode(e.blob.as_slice()),
            mark_in_sync: e.mark_in_sync,
            overwrite: e.overwrite,
        };
        out.push(w);
        i = i + 1;
    }
    out
}

/// The wire form carries every field, with the blob in standard base64.
pub open spec fn wire_entry_of(w: PlaceholderEntryIpc, e: PlaceholderEntry) -> bool {
    &&& w.relative_path == e.relative_path
    &&& w.is_directory == e.is_directory
    &&& w.size == e.size
    &&& w.created_unix == e.created_unix
    &&& w.modified_unix == e.modified_unix
    &&& w.blob_base64@ == base64_standard(e.blob@)
    &&& w.mark_in_sync == e.mark_in_sync
    &&& w.overwrite == e.overwrite
}

/// The payload of a hydration answer: the bytes in standard base64.
pub fn fetch_data_response(bytes: &[u8]) -> (r: String)
    ensures
        r@ == base64_standard(bytes@),
{
    base64_standard_encode(bytes)
}

/// A request of the file provider extension.
#[derive(Debug, Clone)]
pub enum IpcRequest {
    GetItemState { mount_id: String, path: String },
    FetchPlaceholders { mount_id: String, path: String },
    FetchData { mount_id: String, path: String, range_start: u64, range_end: u64 },
}

impl IpcRequest {
    pub open spec fn mount_of(&self) -> Seq<char> {
        match self {
            IpcRequest::GetItemState { mount_id, .. } => mount_id@,
            IpcRequest::FetchPlaceholders { mount_id, .. } => mount_id@,
            IpcRequest::FetchData { mount_id, .. } => mount_id@,
        }
    }

    /// The mount the request is for.
    pub fn mount_id(&self) -> (r: &str)
        ensures
            r@ == self.mount_of(),
    {
        match self {
            IpcRequest::GetItemState { mount_id, .. } => mount_id.as_str(),
            IpcRequest::FetchPlaceholders { mount_id, .. } => mount_id.as_str(),
            IpcRequest::FetchData { mount_id, .. } => mount_id.as_str(),
        }
    }
}

/// Collects the bytes of one request: a request ends with a newline, or
/// when the peer closes the connection.
#[derive(Debug)]
pub struct RequestFramer {
    buf: Vec<u8>,
}

impl RequestFramer {
    pub closed spec fn received(&self) -> Seq<u8> {
        self.buf@
    }

    pub fn new() -> (r: Self)
        ensures
            r.received() == Seq::<u8>::empty(),
    {
        RequestFramer { buf: Vec::new() }
    }

    /// Takes in one read; an empty read is the end of the connection.
    /// Returns whether the request is complete.
    pub fn feed(&mut self, chunk: &[u8]) -> (done: bool)
        ensures
            final(self).received() == old(self).received() + chunk@,
            done == (chunk@.len() == 0 || (final(self).received().len() > 0 && final(self).received().last()
                == 10u8)),
    {
        if chunk.len() == 0 {
            assert(self.buf@ =~= old(self).buf@ + chunk@);
            return true;
        }
        let mut i: usize = 0;
        while i < chunk.len()
            invariant
                i <= chunk@.len(),
                self.buf@ == old(self).buf@ + chunk@.subrange(0, i as int),
            decreases chunk.len() - i,
        {
            self.buf.push(chunk[i]);
            assert(self.buf@ =~= old(self).buf@ + chunk@.subrange(0, i + 1));
            i = i + 1;
        }
        assert(chunk@.subrange(0, chunk@.len() as int) =~= chunk@);
        let n = self.buf.len();
        n > 0 && self.buf[n - 1] == 10u8
    }

    /// The bytes of the request; an empty request is ignored by the server.
    pub fn into_bytes(self) -> (r: Vec<u8>)
        ensures
            r@ == self.received(),
    {
        self.buf
    }
}

/// `~/.cloudreve/macos-file-provider/xpc.sock`.
pub open spec fn socket_path_text(home: Seq<char>) -> Seq<char> {
    spec_path_join(spec_path_join(spec_path_join(home, ".cloudreve"@), "macos-file-provider"@), "xpc.sock"@)
}

/// The socket the file provider extension connects to.
pub fn socket_path(home: &str) -> (r: String)
    ensures
        r@ == socket_path_text(home@),
{
    let a = path_join(home, ".cloudreve");
    let b = path_join(a.as_str(), "macos-file-provider");
    path_join(b.as_str(), "xpc.sock")
}

/// The drive handlers of the mounts served over the socket, one per mount.
#[derive(Debug)]
pub struct HandlerRegistry<T> {
    entries: Vec<(String, T)>,
}

/// No mount occurs twice.
pub open spec fn mounts_unique<T>(s: Seq<(String, T)>) -> bool {
    forall|i: int, j: int| 0 <= i < j < s.len() ==> (#[trigger] s[i]).0@ != (#[trigger] s[j]).0@
}

/// The handler registered for `mount`, if any.
pub open spec fn handler_for<T>(s: Seq<(String, T)>, mount: Seq<char>) -> Option<T> {
    if exists|i: int| 0 <= i < s.len() && (#[trigger] s[i]).0@ == mount {
        Some(s[choose|i: int| 0 <= i < s.len() && (#[trigger] s[i]).0@ == mount].1)
    } else {
        None
    }
}

proof fn lemma_handler_at<T>(s: Seq<(String, T)>, i: int)
    requires
        mounts_unique(s),
        0 <= i < s.len(),
    ensures
        handler_for(s, s[i].0@) == Some(s[i].1),
{
    let key = s[i].0@;
    assert(s[i].0@ == key);
    let j = choose|j: int| 0 <= j < s.len() && (#[trigger] s[j]).0@ == key;
    if j != i {
        if j < i {
            assert(s[j].0@ != s[i].0@);
        } else {
            assert(s[i].0@ != s[j].0@);
        }
    }
}

impl<T> HandlerRegistry<T> {
    #[verifier::type_invariant]
    spec fn distinct_mounts(&self) -> bool {
        mounts_unique(self.entries@)
    }

    /// The handler of each mount.
    pub closed spec fn lookup(&self, mount: Seq<char>) -> Option<T> {
        handler_for(self.entries@, mount)
    }

    pub fn new() -> (r: Self)
        ensures
            forall|m: Seq<char>| r.lookup(m) is None,
    {
        HandlerRegistry { entries: Vec::new() }
    }

    fn find(&self, mount_id: &str) -> (r: Option<usize>)
        ensures
            match r {
                Some(i) => i < self.entries@.len() && self.entries@[i as int].0@ == mount_id@,
                None => forall|i: int|
                    0 <= i < self.entries@.len() ==> (#[trigger] self.entries@[i]).0@ != mount_id@,
            },
    {
        let mut i: usize = 0;
        while i < self.entries.len()
            invariant
                i <= self.entries@.len(),
                forall|j: int| 0 <= j < i ==> (#[trigger] self.entries@[j]).0@ != mount_id@,
            decreases self.entries.len() - i,
        {
            if str_eq(self.entries[i].0.as_str(), mount_id) {
                return Some(i);
            }
            i = i + 1;
        }
        None
    }

    /// Removes the handler of a mount.
    pub fn remove(&mut self, mount_id: &str)
        ensures
            final(self).lookup(mount_id@) is None,
            forall|m: Seq<char>| m != mount_id@ ==> final(self).lookup(m) == old(self).lookup(m),
    {
        proof {
            use_type_invariant(&*self);
        }
        match self.find(mount_id) {
            None => {},
            Some(i) => {
                let ghost before = self.entries@;
                let mut entries: Vec<(String, T)> = Vec::new();
                std::mem::swap(&mut entries, &mut self.entries);
                let _removed = entries.remove(i);
                proof {
                    let after = entries@;
                    assert(after =~= before.remove(i as int));
                    assert forall|a: int, b: int| 0 <= a < b < after.len() implies (#[trigger] after[a]).0@
                        != (#[trigger] after[b]).0@ by {
                        let a2 = if a < i { a } else { a + 1 };
                        let b2 = if b < i { b } else { b + 1 };
                        assert(after[a] == before[a2]);
                        assert(after[b] == before[b2]);
                        assert(before[a2].0@ != before[b2].0@);
                    }
                    assert forall|k: int| 0 <= k < after.len() implies (#[trigger] after[k]).0@ != mount_id@ by {
                        let k2 = if k < i { k } else { k + 1 };
                        assert(after[k] == before[k2]);
                        if k2 < i {
                            assert(before[k2].0@ != before[i as int].0@);
                        } else {
                            assert(before[i as int].0@ != before[k2].0@);
                        }
                    }
                    assert forall|m: Seq<char>| m != mount_id@ implies handler_for(after, m) == handler_for(
                        before,
                        m,
                    ) by {
                        if exists|j: int| 0 <= j < before.len() && (#[trigger] before[j]).0@ == m {
                            let j = choose|j: int| 0 <= j < before.len() && (#[trigger] before[j]).0@ == m;
                            lemma_handler_at(before, j);
                            assert(j != i);
                            let x = if j < i { j } else { j - 1 };
                            assert(after[x] == before[j]);
                            lemma_handler_at(after, x);
                        } else {
                            assert forall|x: int| 0 <= x < after.len() implies (#[trigger] after[x]).0@ != m by {
                                let x2 = if x < i { x } else { x + 1 };
                                assert(after[x] == before[x2]);
                            }
                        }
                    }
                }
                self.entries = entries;
            },
        }
    }

    /// Registers the handler of a mount, replacing an earlier one.
    pub fn insert(&mut self, mount_id: String, handler: T)
        ensures
            final(self).lookup(mount_id@) == Some(handler),
            forall|m: Seq<char>| m != mount_id@ ==> final(self).lookup(m) == old(self).lookup(m),
    {
        self.remove(mount_id.as_str());
        proof {
            use_type_invariant(&*self);
        }
        let ghost before = self.entries@;
        let ghost key = mount_id@;
        let mut entries: Vec<(String, T)> = Vec::new();
        std::mem::swap(&mut entries, &mut self.entries);
        entries.push((mount_id, handler));
        proof {
            let after = entries@;
            let n = before.len() as int;
            assert forall|k: int| 0 <= k < before.len() implies (#[trigger] before[k]).0@ != key by {
                if before[k].0@ == key {
                    assert(exists|i: int| 0 <= i < before.len() && (#[trigger] before[i]).0@ == key);
                }
            }
            assert forall|a: int, b: int| 0 <= a < b < after.len() implies (#[trigger] after[a]).0@
                != (#[trigger] after[b]).0@ by {
                assert(after[a] == before[a]);
                if b < n {
                    assert(after[b] == before[b]);
                }
            }
            lemma_handler_at(after, n);
            assert forall|m: Seq<char>| m != key implies handler_for(after, m) == handler_for(before, m) by {
                if exists|j: int| 0 <= j < before.len() && (#[trigger] before[j]).0@ == m {
                    let j = choose|j: int| 0 <= j < before.len() && (#[trigger] before[j]).0@ == m;
                    lemma_handler_at(before, j);
                    assert(after[j] == before[j]);
                    lemma_handler_at(after, j);
                } else {
                    assert forall|x: int| 0 <= x < after.len() implies (#[trigger] after[x]).0@ != m by {
                        if x < n {
                            assert(after[x] == before[x]);
                        }
                    }
                }
            }
        }
        self.entries = entries;
    }

    /// The handler of a mount.
    pub fn get(&self, mount_id: &str) -> (r: Option<&T>)
        ensures
            match r {
                Some(h) => self.lookup(mount_id@) == Some(*h),
                None => self.lookup(mount_id@) is None,
            },
    {
        proof {
            use_type_invariant(self);
        }
        match self.find(mount_id) {
            Some(i) => {
                proof {
                    lemma_handler_at(self.entries@, i as int);
                }
                Some(&self.entries[i].1)
            },
            None => None,
        }
    }
}

/// A registered handler is what a later lookup of its mount gives back,
/// whatever other mounts are registered or removed in between; a removed
/// mount has no handler.
pub proof fn lemma_registry_read_back<T>(s: Seq<(String, T)>, i: int)
    requires
        mounts_unique(s),
        0 <= i < s.len(),
    ensures
        handler_for(s, s[i].0@) == Some(s[i].1),
{
    lemma_handler_at(s, i);
}

/// The mount-side session of a registered handler.
#[derive(Debug)]
pub struct FileProviderMountSession {
    mount_id: String,
}

impl FileProviderMountSession {
    pub closed spec fn mount(&self) -> Seq<char> {
        self.mount_id@
    }

    /// Ends the mount's session: its handler is removed.
    pub fn disconnect<T>(&self, registry: &mut HandlerRegistry<T>) -> (r: Result<(), String>)
        ensures
            r is Ok,
            final(registry).lookup(self.mount()) is None,
            forall|m: Seq<char>| m != self.mount() ==> final(registry).lookup(m) == old(registry).lookup(m),
    {
        registry.remove(self.mount_id.as_str());
        Ok(())
    }
}

/// Registers the drive handler of a mount with the IPC server (whose start
/// is the caller's I/O) and returns the session that unregisters it.
pub fn register_handler_for_mount<T>(registry: &mut HandlerRegistry<T>, mount_id: String, handler: T) -> (r:
    Result<FileProviderMountSession, String>)
    ensures
        r is Ok,
        r->Ok_0.mount() == mount_id@,
        final(registry).lookup(mount_id@) == Some(handler),
        forall|m: Seq<char>| m != mount_id@ ==> final(registry).lookup(m) == old(registry).lookup(m),
{
    let session_id = mount_id.clone();
    registry.insert(mount_id, handler);
    Ok(FileProviderMountSession { mount_id: session_id })
}

} // verus!
