//! Frame tags: which module a frame is addressed to.

use vstd::prelude::*;

verus! {

/// Unique tags that dictate which module receives a frame.
#[derive(Debug, Clone, Copy, PartialEq, Eq, Structural)]
pub enum FrameTag {
    Tennis,
    Test,
}

impl FrameTag {
    /// The byte that stands for this tag on the wire.
    pub open spec fn spec_to_u8(self) -> u8 {
        match self {
            FrameTag::Tennis => 0x00,
            FrameTag::Test => 0x01,
        }
    }

    /// The tag a byte stands for, if any.
    pub open spec fn spec_from_u8(v: u8) -> Option<FrameTag> {
        if v == 0x00 {
            Some(FrameTag::Tennis)
        } else if v == 0x01 {
            Some(FrameTag::Test)
        } else {
            None
        }
    }

    /// The byte that stands for this tag on the wire.
    pub fn to_u8(self) -> (r: u8)
        ensures
            r == self.spec_to_u8(),
    {
        match self {
            FrameTag::Tennis => 0x00,
            FrameTag::Test => 0x01,
        }
    }

    /// Reads a tag from its byte; a byte that is no tag is handed back as the error.
    pub fn try_from_primitive(v: u8) -> (r: Result<FrameTag, u8>)
        ensures
            match Self::spec_from_u8(v) {
                Some(t) => r == Ok::<FrameTag, u8>(t),
                None => r == Err::<FrameTag, u8>(v),
            },
    {
        if v == 0x00 {
            Ok(FrameTag::Tennis)
        } else if v == 0x01 {
            Ok(FrameTag::Test)
        } else {
            Err(v)
        }
    }
}

/// Reading back the byte of a tag gives the tag again.
pub proof fn lemma_frame_tag_roundtrip(t: FrameTag)
    ensures
        FrameTag::spec_from_u8(t.spec_to_u8()) == Some(t),
{
}

/// A byte that reads as a tag is that tag's byte: no two tags share a byte.
pub proof fn lemma_frame_tag_byte_unique(v: u8)
    ensures
        FrameTag::spec_from_u8(v) matches Some(t) ==> t.spec_to_u8() == v,
{
}

} // verus!
