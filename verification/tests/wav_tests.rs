use rwav::wav::{Chunk, ChunkHeader, FmtSubChunk, WavError, WavFile, WavHeader, HEADER_SIZE};

fn sample_header() -> WavHeader {
    WavHeader {
        chunk_id: *b"RIFF",
        chunk_size: 36,
        format: *b"WAVE",
        fmt: FmtSubChunk {
            subchunk_1_id: *b"fmt ",
            subchunk_1_size: 16,
            audio_format: 1,
            num_channels: 2,
            sample_rate: 44100,
            byte_rate: 176400,
            block_align: 4,
            bits_per_sample: 16,
        },
    }
}

fn container_with(chunks: &[(&[u8; 4], &[u8])]) -> Vec<u8> {
    let mut bytes = sample_header().encode();
    for (tag, payload) in chunks {
        let chunk = Chunk {
            chunk_header: ChunkHeader { chunk_id: **tag, chunk_size: payload.len() as u32 },
            data: payload.to_vec(),
        };
        bytes.extend_from_slice(&chunk.encode());
    }
    bytes
}

#[test]
fn header_round_trip_preserves_every_field() {
    let header = sample_header();
    let bytes = header.encode();
    assert_eq!(bytes.len(), HEADER_SIZE);
    let parsed = WavHeader::parse(&bytes).unwrap();
    assert_eq!(parsed, header);
}

#[test]
fn container_round_trip_preserves_format_and_payload() {
    // A synthetic container: stereo, 44100 Hz, 16 bits, one payload chunk.
    let payload: Vec<u8> = (0..32).collect();
    let bytes = container_with(&[(b"data", &payload)]);
    let mut reader = WavFile::new(bytes).unwrap();
    assert_eq!(reader.header.fmt.num_channels, 2);
    assert_eq!(reader.header.fmt.sample_rate, 44100);
    assert_eq!(reader.header.fmt.bits_per_sample, 16);
    let chunk = reader.next_chunk().unwrap().unwrap();
    assert_eq!(&chunk.chunk_header.chunk_id, b"data");
    assert_eq!(chunk.chunk_header.chunk_size, 32);
    assert_eq!(chunk.data, payload);
    assert!(reader.next_chunk().unwrap().is_none());
}

#[test]
fn reader_consumes_the_whole_file_and_exhausts_once() {
    let bytes = container_with(&[
        (b"info", b"metadata!"),
        (b"junk", b""),
        (b"data", &[1, 2, 3, 4, 5, 6]),
    ]);
    let total = bytes.len();
    let mut reader = WavFile::new(bytes).unwrap();
    let mut seen: Vec<[u8; 4]> = Vec::new();
    let mut consumed = HEADER_SIZE;
    loop {
        match reader.next_chunk().unwrap() {
            Some(chunk) => {
                consumed += 8 + chunk.data.len();
                seen.push(chunk.chunk_header.chunk_id);
            }
            None => break,
        }
    }
    assert_eq!(seen, vec![*b"info", *b"junk", *b"data"]);
    assert_eq!(consumed, total);
    assert_eq!(reader.offset, total);
    // The exhausted sentinel is terminal: asking again answers the same.
    assert!(reader.next_chunk().unwrap().is_none());
}

#[test]
fn read_all_chunks_returns_the_full_series() {
    let bytes = container_with(&[(b"info", b"x"), (b"data", &[9, 9, 9])]);
    let total = bytes.len();
    let mut reader = WavFile::new(bytes).unwrap();
    let chunks = reader.read_all_chunks().unwrap();
    assert_eq!(chunks.len(), 2);
    assert_eq!(&chunks[0].chunk_header.chunk_id, b"info");
    assert_eq!(chunks[1].data, vec![9, 9, 9]);
    assert_eq!(reader.offset, total);
}

#[test]
fn oversized_chunk_fails_with_truncated_input() {
    // The chunk declares 100 payload bytes but only 4 follow.
    let mut bytes = sample_header().encode();
    bytes.extend_from_slice(b"data");
    bytes.extend_from_slice(&[100, 0, 0, 0]);
    bytes.extend_from_slice(&[1, 2, 3, 4]);
    let mut reader = WavFile::new(bytes).unwrap();
    assert!(matches!(reader.next_chunk(), Err(WavError::TruncatedInput)));
}

#[test]
fn partial_chunk_header_fails_with_truncated_input() {
    let mut bytes = sample_header().encode();
    bytes.extend_from_slice(b"dat");
    let mut reader = WavFile::new(bytes).unwrap();
    assert!(matches!(reader.next_chunk(), Err(WavError::TruncatedInput)));
}

#[test]
fn short_file_fails_with_truncated_input() {
    let bytes = vec![0x52, 0x49, 0x46, 0x46];
    assert!(matches!(WavFile::new(bytes), Err(WavError::TruncatedInput)));
}

#[test]
fn wrong_magic_fails_with_invalid_layout() {
    let mut bytes = sample_header().encode();
    bytes[0] = b'X';
    assert!(matches!(WavFile::new(bytes), Err(WavError::InvalidLayout)));
    let mut bytes = sample_header().encode();
    bytes[8] = b'X';
    assert!(matches!(WavFile::new(bytes), Err(WavError::InvalidLayout)));
}

#[test]
fn parse_reads_little_endian_fields() {
    let mut bytes = sample_header().encode();
    // sample_rate sits at offset 24; overwrite it with 0x00012345.
    bytes[24] = 0x45;
    bytes[25] = 0x23;
    bytes[26] = 0x01;
    bytes[27] = 0x00;
    let parsed = WavHeader::parse(&bytes).unwrap();
    assert_eq!(parsed.fmt.sample_rate, 0x00012345);
}

#[test]
fn bytes_per_frame_follows_the_format() {
    let header = sample_header();
    assert_eq!(header.fmt.bytes_per_frame(), 4);
    let mut mono = header.fmt;
    mono.num_channels = 1;
    mono.bits_per_sample = 8;
    assert_eq!(mono.bytes_per_frame(), 1);
}

#[test]
fn empty_chunk_series_is_valid() {
    let bytes = sample_header().encode();
    let mut reader = WavFile::new(bytes).unwrap();
    assert!(reader.next_chunk().unwrap().is_none());
}
