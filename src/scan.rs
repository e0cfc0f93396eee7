//! Locating the thumbnail chunk of a `.fzp` document.
//!
//! A document is a RIFF container: a 12-byte header (`RIFF`, a little-endian
//! total size, the form type `fzp `) followed by chunks, each an 8-byte header
//! (a tag and a little-endian payload size) and its payload. Only the first
//! `MAX_CHUNKS_SCANNED` chunks are looked at: thumbnailing runs often and a
//! document without an early thumbnail is not worth a deeper walk.
//!
//! The caller reads the headers from its stream and hands them in; `scan_chunk`
//! says what to do next: take a window of a given length at the current
//! position, skip a number of payload bytes and read the next header, or give
//! up.
use vstd::prelude::*;

use crate::min_int;

verus! {

/// How many top-level chunks are inspected before giving up.
pub const MAX_CHUNKS_SCANNED: usize = 2;

/// Length of the container header.
pub const CONTAINER_HEADER_LEN: usize = 12;

/// Length of a chunk header.
pub const CHUNK_HEADER_LEN: usize = 8;

#[derive(Debug, Clone, Copy, PartialEq, Eq, Structural)]
pub enum ScanError {
    /// The container's magic or form type is not that of a document.
    Format,
    /// None of the inspected chunks is a thumbnail.
    NotFound,
}

/// The tag and declared payload size of one chunk.
#[derive(Debug, Clone, Copy)]
pub struct ChunkHeader {
    pub tag: [u8; 4],
    pub size: u32,
}

/// What the scan knows between chunks.
#[derive(Debug, Clone, Copy, PartialEq, Eq, Structural)]
pub struct ScanState {
    /// What the container still declares after the chunks already passed.
    pub remaining_file_size: u32,
    /// How many chunk headers were already read.
    pub chunks_seen: usize,
}

/// The next thing to do after a chunk header was read.
#[derive(Debug, Clone, Copy, PartialEq, Eq, Structural)]
pub enum ScanStep {
    /// The thumbnail payload starts here; it is this many bytes long.
    Found(u64),
    /// Skip this many payload bytes, then read the next chunk header.
    Skip { bytes: u32, next: ScanState },
    /// Give up: no thumbnail among the inspected chunks.
    NotFound,
}

/// The little-endian `u32` held by four bytes.
pub open spec fn le32(b0: u8, b1: u8, b2: u8, b3: u8) -> int {
    b0 + 256 * b1 + 65536 * b2 + 16777216 * b3
}

/// `RIFF`
pub open spec fn is_riff_magic(h: Seq<u8>) -> bool {
    h[0] == 0x52u8 && h[1] == 0x49u8 && h[2] == 0x46u8 && h[3] == 0x46u8
}

/// `fzp ` at bytes 8 to 12.
pub open spec fn is_fzp_form(h: Seq<u8>) -> bool {
    h[8] == 0x66u8 && h[9] == 0x7au8 && h[10] == 0x70u8 && h[11] == 0x20u8
}

/// `thmb`
pub open spec fn is_thumbnail_tag(tag: Seq<u8>) -> bool {
    tag[0] == 0x74u8 && tag[1] == 0x68u8 && tag[2] == 0x6du8 && tag[3] == 0x62u8
}

/// `a - b`, or zero where that is negative.
pub open spec fn saturating_sub(a: int, b: int) -> int {
    if a >= b {
        a - b
    } else {
        0
    }
}

/// What a 12-byte container header yields: the declared total size, or a
/// format error.
pub open spec fn container_header_spec(h: Seq<u8>) -> Result<u32, ScanError> {
    if is_riff_magic(h) && is_fzp_form(h) {
        Ok(le32(h[4], h[5], h[6], h[7]) as u32)
    } else {
        Err(ScanError::Format)
    }
}

/// The scan state right after the container header.
pub open spec fn start_state(total_size: u32) -> ScanState {
    ScanState { remaining_file_size: total_size, chunks_seen: 0 }
}

/// What follows a chunk header read in `state`.
pub open spec fn scan_step_spec(state: ScanState, chunk: ChunkHeader) -> ScanStep {
    if is_thumbnail_tag(chunk.tag@) {
        ScanStep::Found(min_int(chunk.size as int, state.remaining_file_size as int) as u64)
    } else if state.chunks_seen + 1 >= MAX_CHUNKS_SCANNED {
        ScanStep::NotFound
    } else {
        ScanStep::Skip {
            bytes: chunk.size,
            next: ScanState {
                remaining_file_size: saturating_sub(
                    saturating_sub(state.remaining_file_size as int, chunk.size as int),
                    8,
                ) as u32,
                chunks_seen: (state.chunks_seen + 1) as usize,
            },
        }
    }
}

fn read_le32(b: &[u8], at: usize) -> (r: u32)
    requires
        at + 4 <= b@.len(),
    ensures
        r as int == le32(b@[at as int], b@[at + 1], b@[at + 2], b@[at + 3]),
{
    let b0 = b[at] as u32;
    let b1 = b[at + 1] as u32;
    let b2 = b[at + 2] as u32;
    let b3 = b[at + 3] as u32;
    b0 + 256 * b1 + 65536 * b2 + 16777216 * b3
}

/// Checks the 12-byte container header and returns the total size it
/// declares (the size of everything after its first 8 bytes).
pub fn parse_container_header(h: &[u8]) -> (r: Result<u32, ScanError>)
    requires
        h@.len() == CONTAINER_HEADER_LEN,
    ensures
        r == container_header_spec(h@),
{
    if !(h[0] == 0x52u8 && h[1] == 0x49u8 && h[2] == 0x46u8 && h[3] == 0x46u8) {
        return Err(ScanError::Format);
    }
    if !(h[8] == 0x66u8 && h[9] == 0x7au8 && h[10] == 0x70u8 && h[11] == 0x20u8) {
        return Err(ScanError::Format);
    }
    Ok(read_le32(h, 4))
}

/// Splits an 8-byte chunk header into its tag and declared size.
pub fn parse_chunk_header(b: &[u8]) -> (r: ChunkHeader)
    requires
        b@.len() == CHUNK_HEADER_LEN,
    ensures
        r.tag@ == b@.subrange(0, 4),
        r.size as int == le32(b@[4], b@[5], b@[6], b@[7]),
{
    let tag: [u8; 4] = [b[0], b[1], b[2], b[3]];
    assert(tag@ =~= b@.subrange(0, 4));
    ChunkHeader { tag, size: read_le32(b, 4) }
}

impl ScanState {
    /// The state after a container header that declares `total_size`.
    pub fn start(total_size: u32) -> (r: ScanState)
        ensures
            r == start_state(total_size),
    {
        ScanState { remaining_file_size: total_size, chunks_seen: 0 }
    }
}

/// Decides what follows the chunk header `chunk`, read in `state`.
///
/// A thumbnail chunk yields a window of its declared size, cut down to what
/// the container still declares; another chunk is skipped while the limit
/// allows, and the declared remainder shrinks by its payload and header,
/// never below zero.
pub fn scan_chunk(state: ScanState, chunk: ChunkHeader) -> (r: ScanStep)
    ensures
        r == scan_step_spec(state, chunk),
{
    if chunk.tag[0] == 0x74u8 && chunk.tag[1] == 0x68u8 && chunk.tag[2] == 0x6du8 && chunk.tag[3]
        == 0x62u8 {
        let len: u32 = if chunk.size <= state.remaining_file_size {
            chunk.size
        } else {
            state.remaining_file_size
        };
        ScanStep::Found(len as u64)
    } else if state.chunks_seen >= MAX_CHUNKS_SCANNED - 1 {
        ScanStep::NotFound
    } else {
        let rest: u32 = if state.remaining_file_size >= chunk.size {
            state.remaining_file_size - chunk.size
        } else {
            0
        };
        let rest: u32 = if rest >= 8 {
            rest - 8
        } else {
            0
        };
        ScanStep::Skip {
            bytes: chunk.size,
            next: ScanState { remaining_file_size: rest, chunks_seen: state.chunks_seen + 1 },
        }
    }
}

/// A chunk header as `parse_chunk_header` reads it from `file` at `at`.
pub open spec fn chunk_read_at(file: Seq<u8>, at: int, c: ChunkHeader) -> bool {
    &&& 0 <= at
    &&& at + CHUNK_HEADER_LEN <= file.len()
    &&& c.tag@ == file.subrange(at, at + 4)
    &&& c.size as int == le32(file[at + 4], file[at + 5], file[at + 6], file[at + 7])
}

/// A container header that `parse_container_header` accepts, declaring `total`.
pub open spec fn container_read(file: Seq<u8>, total: u32) -> bool {
    &&& file.len() >= CONTAINER_HEADER_LEN
    &&& is_riff_magic(file)
    &&& is_fzp_form(file)
    &&& total as int == le32(file[4], file[5], file[6], file[7])
}

/// Where the thumbnail is the first chunk, the window over its payload is
/// as long as the smaller of the chunk's declared size and the container's
/// declared total size.
pub proof fn lemma_thumbnail_in_first_chunk(file: Seq<u8>, total: u32, c1: ChunkHeader)
    requires
        container_read(file, total),
        chunk_read_at(file, CONTAINER_HEADER_LEN as int, c1),
        is_thumbnail_tag(file.subrange(12, 16)),
    ensures
        scan_step_spec(start_state(total), c1) == ScanStep::Found(
            min_int(c1.size as int, total as int) as u64,
        ),
{
    assert(c1.tag@ =~= file.subrange(12, 16));
}

/// Where the first chunk is something else and the second is the thumbnail,
/// the scan skips exactly the first chunk's declared payload after its 8-byte
/// header, so that the second header is read at `20 + size`, and the window
/// is cut to what the container declares after the first chunk.
pub proof fn lemma_thumbnail_in_second_chunk(
    file: Seq<u8>,
    total: u32,
    c1: ChunkHeader,
    c2: ChunkHeader,
)
    requires
        container_read(file, total),
        chunk_read_at(file, CONTAINER_HEADER_LEN as int, c1),
        !is_thumbnail_tag(c1.tag@),
        chunk_read_at(
            file,
            CONTAINER_HEADER_LEN + CHUNK_HEADER_LEN + c1.size,
            c2,
        ),
        is_thumbnail_tag(c2.tag@),
    ensures
        scan_step_spec(start_state(total), c1) matches ScanStep::Skip { bytes, next } && bytes
            == c1.size && CONTAINER_HEADER_LEN + CHUNK_HEADER_LEN + bytes == 20 + c1.size
            && scan_step_spec(next, c2) == ScanStep::Found(
            min_int(
                c2.size as int,
                saturating_sub(saturating_sub(total as int, c1.size as int), 8),
            ) as u64,
        ),
{
}

/// A container header whose magic or form type is wrong is refused with a
/// format error; no chunk header is read after it.
pub proof fn lemma_wrong_header_refused(h: Seq<u8>)
    requires
        h.len() == CONTAINER_HEADER_LEN,
        !is_riff_magic(h) || !is_fzp_form(h),
    ensures
        container_header_spec(h) == Err::<u32, ScanError>(ScanError::Format),
{
}

/// Where neither of the first two chunks is the thumbnail, the scan gives up
/// after the second, whatever follows.
pub proof fn lemma_no_thumbnail_in_two_chunks(total: u32, c1: ChunkHeader, c2: ChunkHeader)
    requires
        !is_thumbnail_tag(c1.tag@),
        !is_thumbnail_tag(c2.tag@),
    ensures
        scan_step_spec(start_state(total), c1) matches ScanStep::Skip { next, .. }
            && scan_step_spec(next, c2) == ScanStep::NotFound,
{
}

} // verus!
