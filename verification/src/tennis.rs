//! The messages of the tennis module.

use crate::frames::FrameTag;
use crate::ipc_message::IpcMessage;
use vstd::prelude::*;

verus! {

/// Tags of the tennis module's messages.
#[derive(Debug, Clone, Copy, PartialEq, Eq, Structural)]
pub enum MessageTag {
    Ping,
    Pong,
}

/// A ping from the client.
pub struct Ping {
    pub msg: String,
}

/// A pong from the client.
pub struct Pong {
    pub reply: String,
}

impl MessageTag {
    pub open spec fn spec_to_u8(self) -> u8 {
        match self {
            MessageTag::Ping => 0x01,
            MessageTag::Pong => 0x02,
        }
    }

    pub open spec fn spec_from_u8(v: u8) -> Option<MessageTag> {
        if v == 0x01 {
            Some(MessageTag::Ping)
        } else if v == 0x02 {
            Some(MessageTag::Pong)
        } else {
            None
        }
    }

    /// The byte that stands for this tag on the wire.
    pub fn to_u8(self) -> (r: u8)
        ensures
            r == self.spec_to_u8(),
    {
        match self {
            MessageTag::Ping => 0x01,
            MessageTag::Pong => 0x02,
        }
    }

    /// Reads a tag from its byte; a byte that is no tag is handed back as the error.
    pub fn try_from_primitive(v: u8) -> (r: Result<MessageTag, u8>)
        ensures
            match Self::spec_from_u8(v) {
                Some(t) => r == Ok::<MessageTag, u8>(t),
                None => r == Err::<MessageTag, u8>(v),
            },
    {
        if v == 0x01 {
            Ok(MessageTag::Ping)
        } else if v == 0x02 {
            Ok(MessageTag::Pong)
        } else {
            Err(v)
        }
    }
}

impl IpcMessage for Ping {
    const FRAME_TAG: u8 = 0x00;
    const MESSAGE_TAG: u8 = 0x01;
}

impl IpcMessage for Pong {
    const FRAME_TAG: u8 = 0x00;
    const MESSAGE_TAG: u8 = 0x02;
}

/// Reading back the byte of a tag gives the tag again.
pub proof fn lemma_message_tag_roundtrip(t: MessageTag)
    ensures
        MessageTag::spec_from_u8(t.spec_to_u8()) == Some(t),
{
}

/// A byte that reads as a tag is that tag's byte.
pub proof fn lemma_message_tag_byte_unique(v: u8)
    ensures
        MessageTag::spec_from_u8(v) matches Some(t) ==> t.spec_to_u8() == v,
{
}

/// Both tennis messages are addressed to the tennis module, and each carries its own tag.
pub proof fn lemma_tennis_message_tags()
    ensures
        <Ping as IpcMessage>::FRAME_TAG == FrameTag::Tennis.spec_to_u8(),
        <Pong as IpcMessage>::FRAME_TAG == FrameTag::Tennis.spec_to_u8(),
        <Ping as IpcMessage>::MESSAGE_TAG == MessageTag::Ping.spec_to_u8(),
        <Pong as IpcMessage>::MESSAGE_TAG == MessageTag::Pong.spec_to_u8(),
{
}

} // verus!
