//! The frame codec and the datagram buffer: zero fill, payload landing,
//! trailing-fill trimming, lossy UTF-8 decode.

use myftp_rs::buffer::DatagramBuffer;
use myftp_rs::codec::{decode_datagram, payload_len, strip_trailing_fill, BUFFER_CAPACITY, FILL_BYTE};

#[test]
fn fresh_buffer_is_zero_filled_to_capacity() {
    let buf = DatagramBuffer::new_zero_filled();
    let bytes = buf.bytes();
    assert_eq!(bytes.len(), BUFFER_CAPACITY);
    assert!(bytes.iter().all(|&b| b == FILL_BYTE));
}

#[test]
fn round_trip_recovers_payload_exactly() {
    let mut buf = DatagramBuffer::new_zero_filled();
    buf.load_payload(b"hello");
    assert_eq!(&buf.bytes()[..5], b"hello");
    assert!(buf.bytes()[5..].iter().all(|&b| b == FILL_BYTE));
    assert_eq!(buf.decode(), "hello");
}

#[test]
fn payload_trailing_fill_is_stripped_too() {
    let mut buf = DatagramBuffer::new_zero_filled();
    buf.load_payload(b"hi\x00\x00");
    assert_eq!(buf.decode(), "hi");
}

#[test]
fn embedded_fill_is_kept_when_not_trailing() {
    let mut buf = DatagramBuffer::new_zero_filled();
    buf.load_payload(b"a\x00b");
    assert_eq!(buf.decode(), "a\u{0}b");
}

#[test]
fn saturated_buffer_decodes_all_bytes() {
    let mut buf = DatagramBuffer::new_zero_filled();
    let payload = vec![b'x'; BUFFER_CAPACITY];
    buf.load_payload(&payload);
    let body = buf.decode();
    assert_eq!(body.len(), BUFFER_CAPACITY);
    assert_eq!(body, "x".repeat(BUFFER_CAPACITY));
}

#[test]
fn invalid_utf8_is_replaced_not_dropped() {
    let mut buf = DatagramBuffer::new_zero_filled();
    buf.load_payload(&[b'f', 0xFF]);
    assert_eq!(buf.decode(), "f\u{FFFD}");
}

#[test]
fn all_fill_buffer_decodes_to_empty_body() {
    let buf = DatagramBuffer::new_zero_filled();
    assert_eq!(buf.decode(), "");
}

#[test]
fn payload_len_counts_up_to_last_non_fill_byte() {
    assert_eq!(payload_len(&[]), 0);
    assert_eq!(payload_len(&[0, 0, 0]), 0);
    assert_eq!(payload_len(&[1, 2, 3]), 3);
    assert_eq!(payload_len(&[1, 0, 3, 0, 0]), 3);
}

#[test]
fn strip_trailing_fill_keeps_the_prefix() {
    assert_eq!(strip_trailing_fill(&[7, 0, 9, 0, 0]), vec![7, 0, 9]);
    assert_eq!(strip_trailing_fill(&[0, 0]), Vec::<u8>::new());
}

#[test]
fn decode_datagram_on_a_raw_receive_buffer() {
    let mut raw = vec![FILL_BYTE; BUFFER_CAPACITY];
    raw[..5].copy_from_slice(b"ping\n");
    assert_eq!(decode_datagram(&raw), "ping\n");
}
