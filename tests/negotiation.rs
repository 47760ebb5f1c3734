use imgserv::codec::compress_paste;
use imgserv::negotiate::{decoded_reply, decomp, names_zstd};
use imgserv::{Decompressor, ServError};

#[test]
fn header_names_zstd() {
    assert!(names_zstd("zstd"));
    assert!(names_zstd("gzip, deflate, br, zstd"));
    assert!(!names_zstd("gzip, br"));
    assert!(!names_zstd(""));
    assert!(!names_zstd("zst"));
}

#[test]
fn client_without_header_gets_decoded_reply() {
    let d = Decompressor::for_request(None);
    assert!(!d.client_accepts_zstd);
    assert!(d.must_decompress(Some("zstd")));
    assert!(!d.must_decompress(None));
    assert!(!d.must_decompress(Some("gzip")));
}

#[test]
fn client_accepting_zstd_gets_reply_unchanged() {
    let d = Decompressor::for_request(Some("gzip, zstd"));
    assert!(d.client_accepts_zstd);
    assert!(!d.must_decompress(Some("zstd")));
}

#[test]
fn compression_changes_and_restores_text() {
    let text = "line one\nline two, line one\nline two".as_bytes();
    let frame = compress_paste(text).unwrap();
    assert_ne!(frame, text.to_vec());
    let out = decomp(&frame).ok().unwrap();
    assert_eq!(out.body, text.to_vec());
    assert_eq!(out.content_length, text.len().to_string());
}

#[test]
fn corrupt_payload_is_internal() {
    let r = decomp(b"definitely not a zstd frame");
    assert_eq!(r.err(), Some(ServError::Corrupt));
    assert_eq!(ServError::Corrupt.status(), 500);
    assert_eq!(ServError::EmptyQuery.status(), 404);
    assert_eq!(ServError::ReadError.status(), 500);
}

#[test]
fn empty_text_round_trips() {
    let frame = compress_paste(b"").unwrap();
    let out = decomp(&frame).ok().unwrap();
    assert!(out.body.is_empty());
    assert_eq!(out.content_length, "0");
}

#[test]
fn decoder_result_becomes_reply() {
    let d = decoded_reply(Some(b"abc".to_vec())).ok().unwrap();
    assert_eq!(d.body, b"abc".to_vec());
    assert_eq!(d.content_length, "3");
    assert_eq!(decoded_reply(None).err(), Some(ServError::Corrupt));
}
