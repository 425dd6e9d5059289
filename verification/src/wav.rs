//! RIFF/WAVE container structures and the streaming chunk reader.
//!
//! The container starts with a fixed 36-byte header (RIFF tag, file size,
//! WAVE tag, and the format sub-record), followed by tagged, length-prefixed
//! chunks until the end of the file.

use vstd::prelude::*;
use vstd::slice::slice_to_vec;
use crate::codec::{
    le_u16_at, le_u32_at, le_bytes_of_u16, le_bytes_of_u32, read_le_u16, read_le_u32, push_le_u16,
    push_le_u32, lemma_le_u32_round_trip, lemma_le_u16_round_trip, lemma_le_u32_at_subrange,
    lemma_le_u16_at_subrange,
};

verus! {

/// Placeholder for a decoded audio sample.
pub struct WavSample {}

/// How a container operation failed.
#[derive(Debug, Clone, Copy, PartialEq, Eq, Structural)]
pub enum WavError {
    /// A declared size exceeds the bytes that are actually present.
    TruncatedInput,
    /// A structurally required tag does not match its expected constant.
    InvalidLayout,
}

/// The format sub-record of the fixed header: PCM geometry parameters.
#[derive(Debug, Copy, Clone, PartialEq)]
pub struct FmtSubChunk {
    pub subchunk_1_id: [u8; 4],
    pub subchunk_1_size: u32,
    pub audio_format: u16,
    pub num_channels: u16,
    pub sample_rate: u32,
    pub byte_rate: u32,
    pub block_align: u16,
    pub bits_per_sample: u16,
}

impl FmtSubChunk {
    /// Bytes per PCM frame: channel count times bytes per sample. Derives
    /// the playback buffer geometry from the parsed format parameters.
    pub fn bytes_per_frame(&self) -> (r: u32)
        ensures
            r == (self.num_channels as int * self.bits_per_sample as int) / 8,
    {
        let channels = self.num_channels as u32;
        let bits = self.bits_per_sample as u32;
        proof {
            assert(channels * bits <= 0xFFFF_FFFF) by (nonlinear_arith)
                requires
                    channels <= 0xFFFF,
                    bits <= 0xFFFF,
            ;
        }
        channels * bits / 8
    }
}

/// The fixed container header read once at offset 0.
#[derive(Debug, Copy, Clone, PartialEq)]
pub struct WavHeader {
    pub chunk_id: [u8; 4],
    pub chunk_size: u32,
    pub format: [u8; 4],
    pub fmt: FmtSubChunk,
}

/// The header of one tagged chunk: a FourCC tag and a payload size.
#[derive(Debug, Copy, Clone, PartialEq)]
pub struct ChunkHeader {
    pub chunk_id: [u8; 4],
    pub chunk_size: u32,
}

/// One chunk: its header and an owned copy of its payload.
pub struct Chunk {
    pub chunk_header: ChunkHeader,
    pub data: Vec<u8>,
}

/// Byte size of the fixed container header.
pub const HEADER_SIZE: usize = 36;

/// Byte size of a chunk header.
pub const CHUNK_HEADER_SIZE: usize = 8;

/// The "RIFF" magic that must open the container.
pub open spec fn riff_tag() -> Seq<u8> {
    seq![0x52u8, 0x49u8, 0x46u8, 0x46u8]
}

/// The "WAVE" format tag that must follow the container size field.
pub open spec fn wave_tag() -> Seq<u8> {
    seq![0x57u8, 0x41u8, 0x56u8, 0x45u8]
}

/// Both magic tags of the fixed header match their expected constants.
pub open spec fn header_tags_ok(b: Seq<u8>) -> bool {
    &&& b.subrange(0, 4) == riff_tag()
    &&& b.subrange(8, 12) == wave_tag()
}

/// `h` holds exactly the fields stored in the first 36 bytes of `b`.
pub open spec fn header_matches(h: WavHeader, b: Seq<u8>) -> bool {
    &&& h.chunk_id@ == b.subrange(0, 4)
    &&& h.chunk_size == le_u32_at(b, 4)
    &&& h.format@ == b.subrange(8, 12)
    &&& h.fmt.subchunk_1_id@ == b.subrange(12, 16)
    &&& h.fmt.subchunk_1_size == le_u32_at(b, 16)
    &&& h.fmt.audio_format == le_u16_at(b, 20)
    &&& h.fmt.num_channels == le_u16_at(b, 22)
    &&& h.fmt.sample_rate == le_u32_at(b, 24)
    &&& h.fmt.byte_rate == le_u32_at(b, 28)
    &&& h.fmt.block_align == le_u16_at(b, 32)
    &&& h.fmt.bits_per_sample == le_u16_at(b, 34)
}

/// The byte image of the fixed header.
pub open spec fn spec_encode_header(h: WavHeader) -> Seq<u8> {
    h.chunk_id@ + le_bytes_of_u32(h.chunk_size) + h.format@ + h.fmt.subchunk_1_id@
        + le_bytes_of_u32(h.fmt.subchunk_1_size) + le_bytes_of_u16(h.fmt.audio_format)
        + le_bytes_of_u16(h.fmt.num_channels) + le_bytes_of_u32(h.fmt.sample_rate)
        + le_bytes_of_u32(h.fmt.byte_rate) + le_bytes_of_u16(h.fmt.block_align)
        + le_bytes_of_u16(h.fmt.bits_per_sample)
}

/// The byte image of one chunk: tag, little-endian size, payload.
pub open spec fn spec_encode_chunk(c: Chunk) -> Seq<u8> {
    c.chunk_header.chunk_id@ + le_bytes_of_u32(c.chunk_header.chunk_size) + c.data@
}

/// A chunk header fits at offset `off`.
pub open spec fn chunk_header_fits(b: Seq<u8>, off: int) -> bool {
    off + CHUNK_HEADER_SIZE <= b.len()
}

/// The payload size the chunk at `off` declares.
pub open spec fn chunk_size_at(b: Seq<u8>, off: int) -> int {
    le_u32_at(b, off + 4)
}

/// Offset just past the chunk at `off` (header plus payload).
pub open spec fn chunk_end(b: Seq<u8>, off: int) -> int {
    off + CHUNK_HEADER_SIZE + chunk_size_at(b, off)
}

/// The chunk at `off` fits entirely within the file.
pub open spec fn chunk_fits(b: Seq<u8>, off: int) -> bool {
    &&& chunk_header_fits(b, off)
    &&& chunk_end(b, off) <= b.len()
}

/// From `off` on, the file is tiled exactly by well-formed chunks.
pub open spec fn consumes_to_end(b: Seq<u8>, off: int) -> bool
    decreases b.len() - off,
{
    if off == b.len() {
        true
    } else if !chunk_fits(b, off) {
        false
    } else {
        consumes_to_end(b, chunk_end(b, off))
    }
}

/// The chunk series from `off` on, as (tag, declared size, payload) triples.
pub open spec fn spec_chunks(b: Seq<u8>, off: int) -> Seq<(Seq<u8>, int, Seq<u8>)>
    decreases b.len() - off,
{
    if off == b.len() || !chunk_fits(b, off) {
        Seq::empty()
    } else {
        seq![
            (b.subrange(off, off + 4), chunk_size_at(b, off), b.subrange(
                off + CHUNK_HEADER_SIZE,
                chunk_end(b, off),
            )),
        ] + spec_chunks(b, chunk_end(b, off))
    }
}

/// The (tag, declared size, payload) triple a `Chunk` value carries.
pub open spec fn chunk_triple(c: Chunk) -> (Seq<u8>, int, Seq<u8>) {
    (c.chunk_header.chunk_id@, c.chunk_header.chunk_size as int, c.data@)
}

/// Law: a synthetic container built from a well-tagged header and one
/// payload chunk parses back to the same header fields, tiles the file
/// exactly, and yields that one chunk with its payload intact.
#[verifier::rlimit(50)]
pub proof fn lemma_container_round_trip(h: WavHeader, c: Chunk)
    requires
        h.chunk_id@ == riff_tag(),
        h.format@ == wave_tag(),
        c.wf(),
    ensures
        ({
            let b = spec_encode_header(h) + spec_encode_chunk(c);
            &&& b.len() == HEADER_SIZE + CHUNK_HEADER_SIZE + c.data@.len()
            &&& header_tags_ok(b)
            &&& header_matches(h, b)
            &&& consumes_to_end(b, HEADER_SIZE as int)
            &&& spec_chunks(b, HEADER_SIZE as int) == seq![chunk_triple(c)]
        }),
{
    let b = spec_encode_header(h) + spec_encode_chunk(c);
    assert(b.len() == HEADER_SIZE + CHUNK_HEADER_SIZE + c.data@.len());
    assert(b.subrange(0, 4) =~= h.chunk_id@);
    assert(b.subrange(8, 12) =~= h.format@);
    assert(b.subrange(12, 16) =~= h.fmt.subchunk_1_id@);
    lemma_le_u32_round_trip(h.chunk_size);
    lemma_le_u32_at_subrange(b, 4);
    assert(b.subrange(4, 8) =~= le_bytes_of_u32(h.chunk_size));
    lemma_le_u32_round_trip(h.fmt.subchunk_1_size);
    lemma_le_u32_at_subrange(b, 16);
    assert(b.subrange(16, 20) =~= le_bytes_of_u32(h.fmt.subchunk_1_size));
    lemma_le_u16_round_trip(h.fmt.audio_format);
    lemma_le_u16_at_subrange(b, 20);
    assert(b.subrange(20, 22) =~= le_bytes_of_u16(h.fmt.audio_format));
    lemma_le_u16_round_trip(h.fmt.num_channels);
    lemma_le_u16_at_subrange(b, 22);
    assert(b.subrange(22, 24) =~= le_bytes_of_u16(h.fmt.num_channels));
    lemma_le_u32_round_trip(h.fmt.sample_rate);
    lemma_le_u32_at_subrange(b, 24);
    assert(b.subrange(24, 28) =~= le_bytes_of_u32(h.fmt.sample_rate));
    lemma_le_u32_round_trip(h.fmt.byte_rate);
    lemma_le_u32_at_subrange(b, 28);
    assert(b.subrange(28, 32) =~= le_bytes_of_u32(h.fmt.byte_rate));
    lemma_le_u16_round_trip(h.fmt.block_align);
    lemma_le_u16_at_subrange(b, 32);
    assert(b.subrange(32, 34) =~= le_bytes_of_u16(h.fmt.block_align));
    lemma_le_u16_round_trip(h.fmt.bits_per_sample);
    lemma_le_u16_at_subrange(b, 34);
    assert(b.subrange(34, 36) =~= le_bytes_of_u16(h.fmt.bits_per_sample));
    assert(header_matches(h, b));
    let off = HEADER_SIZE as int;
    lemma_le_u32_round_trip(c.chunk_header.chunk_size);
    lemma_le_u32_at_subrange(b, off + 4);
    assert(b.subrange(off + 4, off + 8) =~= le_bytes_of_u32(c.chunk_header.chunk_size));
    assert(chunk_size_at(b, off) == c.chunk_header.chunk_size);
    assert(chunk_end(b, off) == b.len());
    assert(chunk_fits(b, off));
    assert(b.subrange(off, off + 4) =~= c.chunk_header.chunk_id@);
    assert(b.subrange(off + CHUNK_HEADER_SIZE as int, chunk_end(b, off)) =~= c.data@);
    assert(consumes_to_end(b, chunk_end(b, off)));
    assert(spec_chunks(b, chunk_end(b, off)) =~= Seq::<(Seq<u8>, int, Seq<u8>)>::empty());
    assert(spec_chunks(b, off) =~= seq![chunk_triple(c)]);
}

/// Copies the four bytes at `off` into a FourCC array.
fn read_tag(b: &Vec<u8>, off: usize) -> (r: [u8; 4])
    requires
        off + 4 <= b.len(),
    ensures
        r@ == b@.subrange(off as int, off as int + 4),
{
    let r = [b[off], b[off + 1], b[off + 2], b[off + 3]];
    assert(r@ =~= b@.subrange(off as int, off as int + 4));
    r
}

impl WavHeader {
    /// Decodes the fixed header from the front of `b`, validating the
    /// RIFF and WAVE magic tags.
    pub fn parse(b: &Vec<u8>) -> (r: Result<WavHeader, WavError>)
        ensures
            r is Ok <==> b@.len() >= HEADER_SIZE && header_tags_ok(b@),
            b@.len() < HEADER_SIZE ==> r == Result::<WavHeader, WavError>::Err(
                WavError::TruncatedInput,
            ),
            b@.len() >= HEADER_SIZE && !header_tags_ok(b@) ==> r
                == Result::<WavHeader, WavError>::Err(WavError::InvalidLayout),
            r matches Ok(h) ==> header_matches(h, b@),
    {
        if b.len() < HEADER_SIZE {
            return Err(WavError::TruncatedInput);
        }
        let chunk_id = read_tag(b, 0);
        let format = read_tag(b, 8);
        let riff_ok = chunk_id[0] == 0x52 && chunk_id[1] == 0x49 && chunk_id[2] == 0x46
            && chunk_id[3] == 0x46;
        let wave_ok = format[0] == 0x57 && format[1] == 0x41 && format[2] == 0x56 && format[3]
            == 0x45;
        if !riff_ok || !wave_ok {
            proof {
                assert(riff_ok <==> b@.subrange(0, 4) =~= riff_tag());
                assert(wave_ok <==> b@.subrange(8, 12) =~= wave_tag());
            }
            return Err(WavError::InvalidLayout);
        }
        proof {
            assert(b@.subrange(0, 4) =~= riff_tag());
            assert(b@.subrange(8, 12) =~= wave_tag());
        }
        Ok(
            WavHeader {
                chunk_id,
                chunk_size: read_le_u32(b, 4),
                format,
                fmt: FmtSubChunk {
                    subchunk_1_id: read_tag(b, 12),
                    subchunk_1_size: read_le_u32(b, 16),
                    audio_format: read_le_u16(b, 20),
                    num_channels: read_le_u16(b, 22),
                    sample_rate: read_le_u32(b, 24),
                    byte_rate: read_le_u32(b, 28),
                    block_align: read_le_u16(b, 32),
                    bits_per_sample: read_le_u16(b, 34),
                },
            },
        )
    }

    /// Encodes the header back into its 36-byte image.
    pub fn encode(&self) -> (r: Vec<u8>)
        ensures
            r@ == spec_encode_header(*self),
    {
        let mut out: Vec<u8> = Vec::new();
        out.push(self.chunk_id[0]);
        out.push(self.chunk_id[1]);
        out.push(self.chunk_id[2]);
        out.push(self.chunk_id[3]);
        push_le_u32(&mut out, self.chunk_size);
        out.push(self.format[0]);
        out.push(self.format[1]);
        out.push(self.format[2]);
        out.push(self.format[3]);
        out.push(self.fmt.subchunk_1_id[0]);
        out.push(self.fmt.subchunk_1_id[1]);
        out.push(self.fmt.subchunk_1_id[2]);
        out.push(self.fmt.subchunk_1_id[3]);
        push_le_u32(&mut out, self.fmt.subchunk_1_size);
        push_le_u16(&mut out, self.fmt.audio_format);
        push_le_u16(&mut out, self.fmt.num_channels);
        push_le_u32(&mut out, self.fmt.sample_rate);
        push_le_u32(&mut out, self.fmt.byte_rate);
        push_le_u16(&mut out, self.fmt.block_align);
        push_le_u16(&mut out, self.fmt.bits_per_sample);
        assert(out@ =~= spec_encode_header(*self));
        out
    }
}

impl Chunk {
    /// The payload buffer is exactly as long as the header declares.
    pub open spec fn wf(&self) -> bool {
        self.data@.len() == self.chunk_header.chunk_size
    }

    /// Encodes the chunk into its byte image: tag, size, payload.
    pub fn encode(&self) -> (r: Vec<u8>)
        requires
            self.wf(),
        ensures
            r@ == spec_encode_chunk(*self),
    {
        let mut out: Vec<u8> = Vec::new();
        out.push(self.chunk_header.chunk_id[0]);
        out.push(self.chunk_header.chunk_id[1]);
        out.push(self.chunk_header.chunk_id[2]);
        out.push(self.chunk_header.chunk_id[3]);
        push_le_u32(&mut out, self.chunk_header.chunk_size);
        let mut i: usize = 0;
        while i < self.data.len()
            invariant
                i <= self.data@.len(),
                out@ =~= self.chunk_header.chunk_id@ + le_bytes_of_u32(self.chunk_header.chunk_size)
                    + self.data@.subrange(0, i as int),
            decreases self.data@.len() - i,
        {
            out.push(self.data[i]);
            i = i + 1;
        }
        assert(out@ =~= spec_encode_chunk(*self));
        out
    }
}

/// The streaming container reader: the file bytes, a monotone cursor, and
/// the fixed header read at open time.
pub struct WavFile {
    pub data: Vec<u8>,
    pub offset: usize,
    pub header: WavHeader,
}

impl WavFile {
    /// Opens a container over its bytes: validates the fixed header and
    /// positions the cursor immediately after it.
    pub fn new(data: Vec<u8>) -> (r: Result<WavFile, WavError>)
        ensures
            r is Ok <==> data@.len() >= HEADER_SIZE && header_tags_ok(data@),
            data@.len() < HEADER_SIZE ==> (r matches Err(e) && e == WavError::TruncatedInput),
            data@.len() >= HEADER_SIZE && !header_tags_ok(data@) ==> (r matches Err(e) && e
                == WavError::InvalidLayout),
            r matches Ok(f) ==> f.data@ == data@ && f.offset == HEADER_SIZE && header_matches(
                f.header,
                data@,
            ),
    {
        let header = match WavHeader::parse(&data) {
            Ok(h) => h,
            Err(e) => {
                return Err(e);
            },
        };
        Ok(WavFile { data, offset: HEADER_SIZE, header })
    }

    /// Reads the chunk at the cursor and advances past it.
    ///
    /// Returns `Ok(None)` exactly when the cursor is at or past the end of
    /// the file; fails with `TruncatedInput` when the chunk header or its
    /// declared payload would run past the end. The cursor never moves
    /// backward and is unchanged on failure.
    pub fn next_chunk(&mut self) -> (r: Result<Option<Chunk>, WavError>)
        ensures
            final(self).data@ == old(self).data@,
            final(self).header == old(self).header,
            final(self).offset >= old(self).offset,
            old(self).offset >= old(self).data@.len() ==> (r matches Ok(c) && c is None
                && final(self).offset == old(self).offset),
            old(self).offset < old(self).data@.len() && !chunk_fits(
                old(self).data@,
                old(self).offset as int,
            ) ==> (r matches Err(e) && e == WavError::TruncatedInput
                && final(self).offset == old(self).offset),
            old(self).offset < old(self).data@.len() && chunk_fits(
                old(self).data@,
                old(self).offset as int,
            ) ==> {
                &&& r matches Ok(c)
                &&& c matches Some(chunk)
                &&& chunk.wf()
                &&& chunk_triple(chunk) == spec_chunks(old(self).data@, old(self).offset as int)[0]
                &&& final(self).offset == chunk_end(old(self).data@, old(self).offset as int)
            },
    {
        let len = self.data.len();
        if self.offset >= len {
            return Ok(None);
        }
        if len - self.offset < CHUNK_HEADER_SIZE {
            return Err(WavError::TruncatedInput);
        }
        let chunk_id = read_tag(&self.data, self.offset);
        let chunk_size = read_le_u32(&self.data, self.offset + 4);
        if chunk_size as usize > len - self.offset - CHUNK_HEADER_SIZE {
            return Err(WavError::TruncatedInput);
        }
        let start = self.offset + CHUNK_HEADER_SIZE;
        let payload = slice_to_vec(&self.data.as_slice()[start..start + chunk_size as usize]);
        self.offset = start + chunk_size as usize;
        let chunk = Chunk { chunk_header: ChunkHeader { chunk_id, chunk_size }, data: payload };
        proof {
            assert(chunk_triple(chunk) == spec_chunks(old(self).data@, old(self).offset as int)[0]);
        }
        Ok(Some(chunk))
    }

    /// Drains the reader: pulls chunks until the exhausted sentinel.
    ///
    /// On a well-formed chunk region this consumes every byte of the file
    /// and returns the full chunk series; on a malformed one it surfaces
    /// the reader's error.
    pub fn read_all_chunks(&mut self) -> (r: Result<Vec<Chunk>, WavError>)
        ensures
            final(self).data@ == old(self).data@,
            final(self).header == old(self).header,
            consumes_to_end(old(self).data@, old(self).offset as int) ==> {
                &&& r matches Ok(chunks)
                &&& final(self).offset == old(self).data@.len()
                &&& chunks@.map_values(|c: Chunk| chunk_triple(c)) == spec_chunks(
                    old(self).data@,
                    old(self).offset as int,
                )
            },
            old(self).offset <= old(self).data@.len() && !consumes_to_end(
                old(self).data@,
                old(self).offset as int,
            ) ==> (r matches Err(e) && e == WavError::TruncatedInput),
            old(self).offset > old(self).data@.len() ==> (r matches Ok(chunks) && chunks@.len()
                == 0 && final(self).offset == old(self).offset),
    {
        let mut out: Vec<Chunk> = Vec::new();
        loop
            invariant
                self.data@ == old(self).data@,
                self.header == old(self).header,
                self.offset >= old(self).offset,
                old(self).offset <= old(self).data@.len() ==> self.offset <= self.data@.len(),
                old(self).offset > old(self).data@.len() ==> self.offset == old(self).offset
                    && out@.len() == 0,
                consumes_to_end(old(self).data@, old(self).offset as int) <==> consumes_to_end(
                    self.data@,
                    self.offset as int,
                ),
                spec_chunks(old(self).data@, old(self).offset as int) == out@.map_values(
                    |c: Chunk| chunk_triple(c),
                ) + spec_chunks(self.data@, self.offset as int),
            decreases self.data@.len() - self.offset,
        {
            let ghost pre = *self;
            let ghost pre_out = out@;
            match self.next_chunk() {
                Err(e) => {
                    return Err(e);
                },
                Ok(None) => {
                    proof {
                        assert(spec_chunks(pre.data@, pre.offset as int) =~= Seq::<(
                            Seq<u8>,
                            int,
                            Seq<u8>,
                        )>::empty());
                        assert(out@.map_values(|c: Chunk| chunk_triple(c)) =~= spec_chunks(
                            old(self).data@,
                            old(self).offset as int,
                        ));
                        if pre.offset == pre.data@.len() {
                            assert(consumes_to_end(pre.data@, pre.offset as int));
                        }
                    }
                    return Ok(out);
                },
                Ok(Some(c)) => {
                    out.push(c);
                    proof {
                        assert(out@.map_values(|c: Chunk| chunk_triple(c)) =~= pre_out.map_values(
                            |c: Chunk| chunk_triple(c),
                        ).push(chunk_triple(out@[out@.len() - 1])));
                        assert(spec_chunks(pre.data@, pre.offset as int) =~= seq![
                            spec_chunks(pre.data@, pre.offset as int)[0],
                        ] + spec_chunks(self.data@, self.offset as int));
                    }
                },
            }
        }
    }
}

} // verus!
