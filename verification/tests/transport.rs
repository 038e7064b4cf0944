use satisfactory_sav_parser::{reassemble, CompressedSaveFileBody, Error, Parser, MAX_CHUNK_SIZE};

fn chunk_record(max_chunk_size: i64, payload: &[u8], uncompressed: i64, dup_ok: bool) -> Vec<u8> {
    let mut out: Vec<u8> = Vec::new();
    out.extend_from_slice(&0x9E2A83C1u32.to_le_bytes());
    out.extend_from_slice(&0x11111111u32.to_le_bytes());
    out.extend_from_slice(&max_chunk_size.to_le_bytes());
    let cs = payload.len() as i64;
    out.extend_from_slice(&cs.to_le_bytes());
    out.extend_from_slice(&uncompressed.to_le_bytes());
    let dup = if dup_ok { cs } else { cs + 1 };
    out.extend_from_slice(&dup.to_le_bytes());
    out.extend_from_slice(&uncompressed.to_le_bytes());
    out.extend_from_slice(payload);
    out
}

#[test]
fn chunk_round_trip_through_zlib() {
    let body = b"the logical body stream of this save".to_vec();
    let compressed = miniz_oxide::deflate::compress_to_vec_zlib(&body, 6);
    let record = chunk_record(MAX_CHUNK_SIZE, &compressed, body.len() as i64, true);
    let mut parser = Parser::new(record);
    let chunk = parser.read_compressed_body_chunk().unwrap().unwrap();
    assert_eq!(chunk.compressed_size as usize, compressed.len());
    assert_eq!(chunk.uncompressed_size as usize, body.len());
    assert!(parser.read_compressed_body_chunk().unwrap().is_none());
    let reassembled = reassemble(&vec![chunk]).unwrap();
    assert_eq!(reassembled, body);
}

#[test]
fn reassembled_length_equals_declared_sum() {
    let part_a = b"first chunk payload".to_vec();
    let part_b = b"and the second one".to_vec();
    let mut stream: Vec<u8> = Vec::new();
    for part in [&part_a, &part_b] {
        let compressed = miniz_oxide::deflate::compress_to_vec_zlib(part, 6);
        stream.extend_from_slice(&chunk_record(
            MAX_CHUNK_SIZE,
            &compressed,
            part.len() as i64,
            true,
        ));
    }
    let mut parser = Parser::new(stream);
    let mut chunks: Vec<CompressedSaveFileBody> = Vec::new();
    while let Some(c) = parser.read_compressed_body_chunk().unwrap() {
        chunks.push(c);
    }
    assert_eq!(chunks.len(), 2);
    let total: i64 = chunks.iter().map(|c| c.uncompressed_size).sum();
    let reassembled = reassemble(&chunks).unwrap();
    assert_eq!(reassembled.len() as i64, total);
    let mut expected = part_a.clone();
    expected.extend_from_slice(&part_b);
    assert_eq!(reassembled, expected);
}

#[test]
fn wrong_max_chunk_size_is_size_assertion() {
    // The declared maximum must equal 131072; the check fires before any
    // payload byte is read.
    let record = chunk_record(999, b"xx", 2, true);
    let mut parser = Parser::new(record);
    let e = parser.read_compressed_body_chunk().unwrap_err();
    assert!(matches!(e, Error::SizeAssertionFailed { .. }));
}

#[test]
fn wrong_magic_is_size_assertion() {
    let mut record = chunk_record(MAX_CHUNK_SIZE, b"xx", 2, true);
    record[0] = 0;
    let mut parser = Parser::new(record);
    let e = parser.read_compressed_body_chunk().unwrap_err();
    assert!(matches!(e, Error::SizeAssertionFailed { .. }));
}

#[test]
fn disagreeing_duplicate_sizes_are_integrity_mismatch() {
    let record = chunk_record(MAX_CHUNK_SIZE, b"xx", 2, false);
    let mut parser = Parser::new(record);
    let e = parser.read_compressed_body_chunk().unwrap_err();
    assert!(matches!(e, Error::IntegrityMismatch { .. }));
}

#[test]
fn end_of_input_at_record_boundary_is_no_chunk() {
    let mut parser = Parser::new(Vec::new());
    assert!(parser.read_compressed_body_chunk().unwrap().is_none());
}

#[test]
fn truncated_record_is_an_error_not_end() {
    // A record cut off mid-way is a hard error, never a silent "no chunk".
    let record = chunk_record(MAX_CHUNK_SIZE, b"xx", 2, true);
    let cut = record[..record.len() - 1].to_vec();
    let mut parser = Parser::new(cut);
    let e = parser.read_compressed_body_chunk().unwrap_err();
    assert!(matches!(e, Error::TruncatedInput { .. }));
}

#[test]
fn wrong_declared_uncompressed_size_is_integrity_mismatch() {
    let body = b"payload".to_vec();
    let compressed = miniz_oxide::deflate::compress_to_vec_zlib(&body, 6);
    let record = chunk_record(MAX_CHUNK_SIZE, &compressed, body.len() as i64 + 5, true);
    let mut parser = Parser::new(record);
    let chunk = parser.read_compressed_body_chunk().unwrap().unwrap();
    let e = reassemble(&vec![chunk]).unwrap_err();
    assert!(matches!(e, Error::IntegrityMismatch { .. }));
}

#[test]
fn corrupt_stream_is_decompression_failure() {
    let record = chunk_record(MAX_CHUNK_SIZE, &[1, 2, 3, 4], 10, true);
    let mut parser = Parser::new(record);
    let chunk = parser.read_compressed_body_chunk().unwrap().unwrap();
    let e = reassemble(&vec![chunk]).unwrap_err();
    assert!(matches!(e, Error::DecompressionFailed { .. }));
}
