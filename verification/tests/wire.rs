use bytes::BytesMut;
use dotboard::tennis::{Ping, Pong};
use dotboard::wire::{encode_frame, frame_message, split_frame};

#[test]
fn encode_frame_prefixes_tags() {
    let frame = encode_frame(0x00, 0x01, b"hello");
    assert_eq!(&frame[..], b"\x00\x01hello");
}

#[test]
fn encode_frame_empty_payload() {
    let frame = encode_frame(0x07, 0x09, &[]);
    assert_eq!(&frame[..], &[0x07, 0x09]);
}

#[test]
fn frame_message_uses_type_tags() {
    let ping = frame_message::<Ping>(&[1, 2, 3]);
    assert_eq!(&ping[..], &[0x00, 0x01, 1, 2, 3]);
    let pong = frame_message::<Pong>(&[9]);
    assert_eq!(&pong[..], &[0x00, 0x02, 9]);
}

#[test]
fn split_frame_takes_tags_off() {
    let raw = BytesMut::from(&[0x00u8, 0x02, 0xAA, 0xBB][..]);
    let (module_tag, message_tag, payload) = split_frame(raw);
    assert_eq!(module_tag, 0x00);
    assert_eq!(message_tag, 0x02);
    assert_eq!(&payload[..], &[0xAA, 0xBB]);
}

#[test]
fn split_frame_two_bytes() {
    let raw = BytesMut::from(&[0x05u8, 0x06][..]);
    let (module_tag, message_tag, payload) = split_frame(raw);
    assert_eq!((module_tag, message_tag), (0x05, 0x06));
    assert!(payload.is_empty());
}

#[test]
fn frame_roundtrip() {
    let payload: Vec<u8> = (0..=255u8).collect();
    let frame = encode_frame(0x2A, 0x11, &payload);
    let (module_tag, message_tag, back) = split_frame(BytesMut::from(&frame[..]));
    assert_eq!(module_tag, 0x2A);
    assert_eq!(message_tag, 0x11);
    assert_eq!(&back[..], &payload[..]);
}
