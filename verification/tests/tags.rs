use dotboard::frames::FrameTag;
use dotboard::tennis::{MessageTag, Ping, Pong};
use dotboard::ipc_message::IpcMessage;

#[test]
fn frame_tag_bytes() {
    assert_eq!(FrameTag::Tennis.to_u8(), 0x00);
    assert_eq!(FrameTag::Test.to_u8(), 0x01);
}

#[test]
fn frame_tag_from_byte() {
    assert_eq!(FrameTag::try_from_primitive(0x00), Ok(FrameTag::Tennis));
    assert_eq!(FrameTag::try_from_primitive(0x01), Ok(FrameTag::Test));
    assert_eq!(FrameTag::try_from_primitive(0x02), Err(0x02));
    assert_eq!(FrameTag::try_from_primitive(0xFF), Err(0xFF));
}

#[test]
fn frame_tag_roundtrip() {
    for t in [FrameTag::Tennis, FrameTag::Test] {
        assert_eq!(FrameTag::try_from_primitive(t.to_u8()), Ok(t));
    }
    for v in 0..=255u8 {
        if let Ok(t) = FrameTag::try_from_primitive(v) {
            assert_eq!(t.to_u8(), v);
        }
    }
}

#[test]
fn message_tag_bytes() {
    assert_eq!(MessageTag::Ping.to_u8(), 0x01);
    assert_eq!(MessageTag::Pong.to_u8(), 0x02);
}

#[test]
fn message_tag_from_byte() {
    assert_eq!(MessageTag::try_from_primitive(0x00), Err(0x00));
    assert_eq!(MessageTag::try_from_primitive(0x01), Ok(MessageTag::Ping));
    assert_eq!(MessageTag::try_from_primitive(0x02), Ok(MessageTag::Pong));
    assert_eq!(MessageTag::try_from_primitive(0x03), Err(0x03));
}

#[test]
fn message_tag_roundtrip() {
    for t in [MessageTag::Ping, MessageTag::Pong] {
        assert_eq!(MessageTag::try_from_primitive(t.to_u8()), Ok(t));
    }
    for v in 0..=255u8 {
        if let Ok(t) = MessageTag::try_from_primitive(v) {
            assert_eq!(t.to_u8(), v);
        }
    }
}

#[test]
fn tennis_messages_carry_their_tags() {
    assert_eq!(<Ping as IpcMessage>::FRAME_TAG, FrameTag::Tennis.to_u8());
    assert_eq!(<Pong as IpcMessage>::FRAME_TAG, FrameTag::Tennis.to_u8());
    assert_eq!(<Ping as IpcMessage>::MESSAGE_TAG, MessageTag::Ping.to_u8());
    assert_eq!(<Pong as IpcMessage>::MESSAGE_TAG, MessageTag::Pong.to_u8());
}
