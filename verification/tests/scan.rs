use candid_extractor::error::ExtractError;
use candid_extractor::memscan::decode_text;
use candid_extractor::memscan::scan_and_decode;
use candid_extractor::memscan::scan_text;

/// Lays `text`'s bytes, followed by one zero byte, at `offset` inside a
/// zero-filled buffer of `size` bytes.
fn buffer_with(text: &str, offset: usize, size: usize) -> Vec<u8> {
    let mut buf = vec![0u8; size];
    buf[offset..offset + text.len()].copy_from_slice(text.as_bytes());
    buf[offset + text.len()] = 0;
    buf
}

#[test]
fn scan_at_zero() {
    let buf = buffer_with("service : {}", 0, 64);
    assert_eq!(scan_and_decode(&buf, 0).unwrap(), "service : {}");
}

#[test]
fn scan_round_trip_at_offset() {
    let buf = buffer_with("interface (alpha, beta) -> gamma", 10, 64);
    assert_eq!(
        scan_and_decode(&buf, 10).unwrap(),
        "interface (alpha, beta) -> gamma"
    );
}

#[test]
fn scan_stops_at_first_zero() {
    let mut buf = buffer_with("hi", 0, 16);
    buf[3] = b'x';
    buf[4] = b'y';
    assert_eq!(scan_and_decode(&buf, 0).unwrap(), "hi");
    let bytes = scan_text(&buf, 0).unwrap();
    assert_eq!(bytes, b"hi".to_vec());
}

#[test]
fn scan_empty_text() {
    let buf = vec![0u8, 7u8, 8u8];
    assert_eq!(scan_and_decode(&buf, 0).unwrap(), "");
}

#[test]
fn scan_offset_at_buffer_end() {
    let buf = vec![1u8, 2u8, 3u8];
    assert_eq!(
        scan_and_decode(&buf, 3).unwrap_err(),
        ExtractError::OutOfBoundsScan { offset: 3, memory_len: 3 }
    );
}

#[test]
fn scan_without_terminator() {
    let buf = vec![1u8, 2u8, 3u8];
    assert_eq!(
        scan_and_decode(&buf, 0).unwrap_err(),
        ExtractError::OutOfBoundsScan { offset: 0, memory_len: 3 }
    );
}

#[test]
fn scan_empty_buffer() {
    let buf: Vec<u8> = Vec::new();
    assert_eq!(
        scan_and_decode(&buf, 0).unwrap_err(),
        ExtractError::OutOfBoundsScan { offset: 0, memory_len: 0 }
    );
}

#[test]
fn decode_rejects_invalid_utf8() {
    let buf = vec![0xffu8, 0xfeu8, 0u8];
    assert_eq!(
        scan_and_decode(&buf, 0).unwrap_err(),
        ExtractError::InvalidTextEncoding
    );
}

#[test]
fn decode_multibyte_utf8() {
    let buf = buffer_with("héllo ✓ wörld", 5, 64);
    assert_eq!(scan_and_decode(&buf, 5).unwrap(), "héllo ✓ wörld");
}

#[test]
fn decode_text_direct() {
    assert_eq!(decode_text(b"service : {}".to_vec()).unwrap(), "service : {}");
    assert_eq!(
        decode_text(vec![0x80u8]).unwrap_err(),
        ExtractError::InvalidTextEncoding
    );
}
