//! Hydration downloads: the HTTP range asked for, and the alignment of the
//! downloaded stream into the blocks the platform writer prefers.

use vstd::prelude::*;
use crate::text::{decimal, push_decimal, push_str};

verus! {

/// Writes are aligned to this many bytes, except the final one.
pub const CHUNK_SIZE: usize = 4096;

/// `Range` header for `start..end`: `bytes={start}-{end - 1}`.
pub open spec fn range_header_text(start: u64, end: u64) -> Seq<char> {
    "bytes="@ + decimal(start as nat) + "-"@ + decimal((end - 1) as nat)
}

/// The HTTP `Range` header value asking for bytes `start..end`.
pub fn range_header(start: u64, end: u64) -> (r: String)
    requires
        start <= end,
        1 <= end,
    ensures
        r@ == range_header_text(start, end),
{
    let mut out = String::new();
    push_str(&mut out, "bytes=");
    push_decimal(&mut out, start);
    push_str(&mut out, "-");
    push_decimal(&mut out, end - 1);
    assert(out@ =~= range_header_text(start, end));
    out
}

/// A ranged download answer is usable when its status is a success (2xx) or
/// partial content (206).
pub fn range_response_ok(status: u16) -> (r: bool)
    ensures
        r == ((200 <= status <= 299) || status == 206),
{
    (200 <= status && status <= 299) || status == 206
}

/// One write to the platform writer, with the progress to report after it.
pub struct ChunkWrite {
    pub offset: u64,
    pub data: Vec<u8>,
    pub total_bytes: u64,
    pub transferred_bytes: u64,
}

/// Cuts a downloaded stream into writes of whole blocks at increasing offsets.
pub struct FetchChunker {
    range_start: u64,
    total_bytes: u64,
    accumulator: Vec<u8>,
    current_offset: u64,
    bytes_transferred: u64,
    written: Ghost<Seq<u8>>,
}

impl FetchChunker {
    /// Offset of the first byte of the download.
    pub closed spec fn start_offset(&self) -> u64 {
        self.range_start
    }

    /// Length of the requested range.
    pub closed spec fn total(&self) -> u64 {
        self.total_bytes
    }

    /// Bytes passed to the writer so far, in order.
    pub closed spec fn written(&self) -> Seq<u8> {
        self.written@
    }

    /// Bytes received and not written yet.
    pub closed spec fn pending(&self) -> Seq<u8> {
        self.accumulator@
    }

    /// The chunker's internal consistency.
    pub closed spec fn inv(&self) -> bool {
        &&& self.bytes_transferred == self.written@.len()
        &&& self.current_offset == self.range_start + self.bytes_transferred
        &&& self.accumulator@.len() < CHUNK_SIZE
    }

    /// A chunker for the download of `range_start..range_end`.
    pub fn new(range_start: u64, range_end: u64) -> (r: FetchChunker)
        requires
            range_start <= range_end,
        ensures
            r.inv(),
            r.start_offset() == range_start,
            r.total() == range_end - range_start,
            r.written() == Seq::<u8>::empty(),
            r.pending() == Seq::<u8>::empty(),
    {
        FetchChunker {
            range_start,
            total_bytes: range_end - range_start,
            accumulator: Vec::new(),
            current_offset: range_start,
            bytes_transferred: 0,
            written: Ghost(Seq::empty()),
        }
    }

    /// Takes a received chunk; when at least one whole block has
    /// accumulated, returns the write of all whole blocks, at the offset
    /// that follows everything written before.
    pub fn feed(&mut self, chunk: &[u8]) -> (r: Option<ChunkWrite>)
        requires
            old(self).inv(),
            old(self).start_offset() + old(self).written().len() + old(self).pending().len() + chunk@.len()
                <= u64::MAX,
        ensures
            final(self).inv(),
            final(self).start_offset() == old(self).start_offset(),
            final(self).total() == old(self).total(),
            final(self).written() + final(self).pending() == old(self).written() + old(self).pending()
                + chunk@,
            match r {
                None => final(self).written() == old(self).written() && old(self).pending().len()
                    + chunk@.len() < CHUNK_SIZE,
                Some(w) => {
                    &&& w.offset == old(self).start_offset() + old(self).written().len()
                    &&& w.data@.len() > 0
                    &&& w.data@.len() % (CHUNK_SIZE as nat) == 0
                    &&& final(self).written() == old(self).written() + w.data@
                    &&& w.total_bytes == old(self).total()
                    &&& w.transferred_bytes == final(self).written().len()
                },
            },
    {
        self.accumulator.extend_from_slice(chunk);
        let len = self.accumulator.len();
        if len < CHUNK_SIZE {
            return None;
        }
        let aligned = (len / CHUNK_SIZE) * CHUNK_SIZE;
        assert(aligned <= len && aligned > 0 && aligned % CHUNK_SIZE == 0) by (nonlinear_arith)
            requires
                aligned == (len / CHUNK_SIZE) * CHUNK_SIZE,
                len >= CHUNK_SIZE,
        ;
        let mut data: Vec<u8> = Vec::new();
        let mut rest: Vec<u8> = Vec::new();
        let mut i: usize = 0;
        while i < len
            invariant
                len == self.accumulator@.len(),
                aligned <= len,
                i <= len,
                data@ =~= self.accumulator@.subrange(0, if i < aligned { i as int } else { aligned as int }),
                rest@ =~= if i <= aligned { Seq::<u8>::empty() } else { self.accumulator@.subrange(aligned as int, i as int) },
            decreases len - i,
        {
            if i < aligned {
                data.push(self.accumulator[i]);
            } else {
                rest.push(self.accumulator[i]);
            }
            i = i + 1;
        }
        assert(len - aligned < CHUNK_SIZE) by (nonlinear_arith)
            requires
                aligned == (len / CHUNK_SIZE) * CHUNK_SIZE,
        ;
        let ghost all = self.accumulator@;
        assert(all =~= data@ + rest@);
        let offset = self.current_offset;
        self.accumulator = rest;
        self.bytes_transferred = self.bytes_transferred + aligned as u64;
        self.current_offset = self.current_offset + aligned as u64;
        proof {
            self.written@ = self.written@ + data@;
        }
        assert(self.written() + self.pending() =~= old(self).written() + old(self).pending() + chunk@);
        Some(ChunkWrite { offset, data, total_bytes: self.total_bytes, transferred_bytes: self.bytes_transferred })
    }

    /// The final write of whatever is left, if anything.
    pub fn finish(self) -> (r: Option<ChunkWrite>)
        requires
            self.inv(),
            self.start_offset() + self.written().len() + self.pending().len() <= u64::MAX,
        ensures
            match r {
                None => self.pending().len() == 0,
                Some(w) => {
                    &&& w.offset == self.start_offset() + self.written().len()
                    &&& w.data@ == self.pending()
                    &&& w.data@.len() > 0
                    &&& w.total_bytes == self.total()
                    &&& w.transferred_bytes == self.written().len() + self.pending().len()
                },
            },
    {
        if self.accumulator.len() == 0 {
            return None;
        }
        let n = self.accumulator.len() as u64;
        let transferred = self.bytes_transferred + n;
        Some(
            ChunkWrite {
                offset: self.current_offset,
                data: self.accumulator,
                total_bytes: self.total_bytes,
                transferred_bytes: transferred,
            },
        )
    }
}

/// The content version named in a download URL request: the inventory's
/// etag when it has a non-empty one.
pub fn file_url_entity(meta: Option<&crate::inventory::FileMetadata>) -> (r: Option<String>)
    ensures
        crate::remote::opt_view(r) == match meta {
            Some(m) => if m.etag@.len() > 0 {
                Some(m.etag@)
            } else {
                None
            },
            None => None,
        },
{
    match meta {
        Some(m) => if m.etag.as_str().unicode_len() > 0 {
            Some(m.etag.clone())
        } else {
            None
        },
        None => None,
    }
}

} // verus!
