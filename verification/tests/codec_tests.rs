use message_optimizer::{maybe_compress, maybe_decompress, DecodeError};

fn round_trip(msg: &str) {
    let (data, was_compressed) = maybe_compress(msg);
    let back = maybe_decompress(&data, was_compressed).expect("decode must succeed");
    assert_eq!(back, msg);
}

#[test]
fn test_compression_threshold() {
    // Small message - should not compress
    let small = "hello";
    let (data, compressed) = maybe_compress(small);
    assert!(!compressed);
    assert_eq!(data, small.as_bytes());

    // Large message - should compress
    let large = "x".repeat(2000);
    let (data, compressed) = maybe_compress(&large);
    assert!(compressed);
    assert!(data.len() < large.len());
}

#[test]
fn test_round_trip_small_and_empty() {
    round_trip("");
    round_trip("hello world");
    round_trip("multi-byte: \u{00e9}\u{4e16}\u{754c}\u{1f600} end");
}

#[test]
fn test_round_trip_sizes() {
    let m500 = "a".repeat(500);
    assert_eq!(m500.len(), 500);
    round_trip(&m500);

    let m1024 = "ab".repeat(512);
    assert_eq!(m1024.len(), 1024);
    round_trip(&m1024);

    let m10000 = "the quick brown fox ".repeat(500);
    assert_eq!(m10000.len(), 10000);
    round_trip(&m10000);

    let repetitive = "z".repeat(5000);
    round_trip(&repetitive);
}

#[test]
fn test_threshold_boundary() {
    // Exactly 1023 bytes: below the threshold, never transformed.
    let m1023 = "y".repeat(1023);
    let (data, compressed) = maybe_compress(&m1023);
    assert!(!compressed);
    assert_eq!(data, m1023.as_bytes());

    // 1024 bytes of highly compressible content: transformed and smaller.
    let m1024 = "y".repeat(1024);
    let (data, compressed) = maybe_compress(&m1024);
    assert!(compressed);
    assert!(data.len() < 1024);
    round_trip(&m1024);
}

#[test]
fn test_incompressible_large_input() {
    // 2000 bytes of high-entropy text from a fixed xorshift generator,
    // rendered as printable characters. Whatever the transform decides, the
    // flag must reflect the actual size comparison and the round trip must
    // still hold.
    let mut state: u64 = 0x243f6a8885a308d3;
    let mut text = String::new();
    while text.len() < 2000 {
        state ^= state << 13;
        state ^= state >> 7;
        state ^= state << 17;
        for b in state.to_le_bytes() {
            // Map each byte to one of 94 printable ASCII characters.
            text.push((33 + (b % 94)) as char);
        }
    }
    text.truncate(2000);

    let (data, compressed) = maybe_compress(&text);
    if compressed {
        assert!(data.len() < text.len());
    } else {
        assert_eq!(data, text.as_bytes());
    }
    let back = maybe_decompress(&data, compressed).expect("decode must succeed");
    assert_eq!(back, text);
}

#[test]
fn test_decode_corrupt_stream() {
    // Garbage that is not a gzip stream at all.
    let garbage = [0x1f, 0x8b, 0xff, 0x00, 0x12, 0x34, 0x56];
    match maybe_decompress(&garbage, true) {
        Err(DecodeError::CorruptStream(_)) => {}
        other => panic!("expected a corrupt-stream error, got {:?}", other),
    }

    // A genuine compressed payload, truncated.
    let large = "w".repeat(4000);
    let (data, compressed) = maybe_compress(&large);
    assert!(compressed);
    let truncated = &data[..data.len() / 2];
    match maybe_decompress(truncated, true) {
        Err(DecodeError::CorruptStream(_)) => {}
        Ok(s) => panic!("truncated stream decoded to {:?}", s),
        other => panic!("expected a corrupt-stream error, got {:?}", other),
    }
}

#[test]
fn test_decode_invalid_utf8() {
    // 0xff can never appear in UTF-8 text.
    let not_text = [0x68, 0x65, 0xff, 0xfe, 0x6c, 0x6f];
    match maybe_decompress(&not_text, false) {
        Err(DecodeError::InvalidUtf8(_)) => {}
        other => panic!("expected an invalid-utf8 error, got {:?}", other),
    }
    // A lone continuation byte is also rejected.
    match maybe_decompress(&[0x80], false) {
        Err(DecodeError::InvalidUtf8(_)) => {}
        other => panic!("expected an invalid-utf8 error, got {:?}", other),
    }
}

#[test]
fn test_decode_error_message_is_nonempty() {
    let err = maybe_decompress(&[0xff], false).unwrap_err();
    assert!(!err.message().is_empty());
    let err = maybe_decompress(&[0x00, 0x01], true).unwrap_err();
    assert!(!err.message().is_empty());
}

#[test]
fn test_encode_is_deterministic() {
    // Both the payload and the flag are functions of the message alone.
    for msg in ["", "hello", &"q".repeat(1023), &"q".repeat(1024), &"r".repeat(5000)] {
        let (d1, f1) = maybe_compress(msg);
        let (d2, f2) = maybe_compress(msg);
        assert_eq!(f1, f2);
        assert_eq!(d1, d2);
    }
}

#[test]
fn test_example_scenario() {
    let original: String = std::iter::repeat('x').take(2000).collect();
    let (data, was_transformed) = maybe_compress(&original);
    assert!(was_transformed);
    assert!(data.len() < 2000);
    let back = maybe_decompress(&data, was_transformed).expect("decode must succeed");
    assert_eq!(back.len(), 2000);
    assert_eq!(back, original);
}
