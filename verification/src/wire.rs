//! The layout of a frame on the local socket: one byte for the module the frame
//! is addressed to, one byte for the message's tag within that module, then the
//! serialized payload, untouched.

use crate::buffers::{
    bytes_content, bytes_mut_content, bytes_mut_freeze, bytes_mut_get_u8, bytes_mut_put_slice,
    bytes_mut_put_u8, bytes_mut_with_capacity,
};
use crate::ipc_message::IpcMessage;
use bytes::Bytes;
use bytes::BytesMut;
use vstd::prelude::*;

verus! {

/// The bytes of a frame that carries `payload` for message `message_tag` of module `frame_tag`.
pub open spec fn spec_frame(frame_tag: u8, message_tag: u8, payload: Seq<u8>) -> Seq<u8> {
    seq![frame_tag, message_tag] + payload
}

/// The module tag, the message tag and the payload of a frame of at least two bytes.
pub open spec fn spec_split(frame: Seq<u8>) -> (u8, u8, Seq<u8>)
    recommends
        frame.len() >= 2,
{
    (frame[0], frame[1], frame.skip(2))
}

/// Builds the frame that carries `payload` for message `message_tag` of module `frame_tag`.
pub fn encode_frame(frame_tag: u8, message_tag: u8, payload: &[u8]) -> (r: Bytes)
    requires
        payload@.len() + 2 <= isize::MAX,
    ensures
        bytes_content(r) == spec_frame(frame_tag, message_tag, payload@),
        bytes_content(r).len() == payload@.len() + 2,
        bytes_content(r)[0] == frame_tag,
        bytes_content(r)[1] == message_tag,
        bytes_content(r).skip(2) == payload@,
{
    let mut buffer = bytes_mut_with_capacity(payload.len() + 2);
    bytes_mut_put_u8(&mut buffer, frame_tag);
    bytes_mut_put_u8(&mut buffer, message_tag);
    bytes_mut_put_slice(&mut buffer, payload);
    let r = bytes_mut_freeze(buffer);
    assert(bytes_content(r) =~= spec_frame(frame_tag, message_tag, payload@));
    r
}

/// Builds the frame of a serialized message of type `T`, addressed by the type's own tags.
pub fn frame_message<T: IpcMessage>(payload: &[u8]) -> (r: Bytes)
    requires
        payload@.len() + 2 <= isize::MAX,
    ensures
        bytes_content(r) == spec_frame(T::FRAME_TAG, T::MESSAGE_TAG, payload@),
{
    encode_frame(T::FRAME_TAG, T::MESSAGE_TAG, payload)
}

/// Takes a received frame apart into its module tag, its message tag and its payload.
pub fn split_frame(raw: BytesMut) -> (r: (u8, u8, Bytes))
    requires
        bytes_mut_content(raw).len() >= 2,
    ensures
        (r.0, r.1, bytes_content(r.2)) == spec_split(bytes_mut_content(raw)),
        r.0 == bytes_mut_content(raw)[0],
        r.1 == bytes_mut_content(raw)[1],
        bytes_content(r.2) == bytes_mut_content(raw).skip(2),
{
    let ghost whole = bytes_mut_content(raw);
    let mut raw = raw;
    let module_tag = bytes_mut_get_u8(&mut raw);
    let message_tag = bytes_mut_get_u8(&mut raw);
    let payload = bytes_mut_freeze(raw);
    assert(bytes_content(payload) =~= whole.skip(2));
    (module_tag, message_tag, payload)
}

/// A frame is its module tag byte, then its message tag byte, then the payload's
/// bytes unchanged, in order.
pub proof fn lemma_frame_layout(frame_tag: u8, message_tag: u8, payload: Seq<u8>)
    ensures
        spec_frame(frame_tag, message_tag, payload).len() == payload.len() + 2,
        spec_frame(frame_tag, message_tag, payload)[0] == frame_tag,
        spec_frame(frame_tag, message_tag, payload)[1] == message_tag,
        spec_frame(frame_tag, message_tag, payload).skip(2) == payload,
        forall|i: int| 0 <= i < payload.len() ==> #[trigger] spec_frame(frame_tag, message_tag, payload)[i + 2] == payload[i],
{
    assert(spec_frame(frame_tag, message_tag, payload).skip(2) =~= payload);
}

/// Taking a frame apart reads the module tag from its first byte, the message tag
/// from its second, and keeps every byte after those as the payload, unchanged.
pub proof fn lemma_split_layout(frame: Seq<u8>)
    requires
        frame.len() >= 2,
    ensures
        spec_split(frame).0 == frame[0],
        spec_split(frame).1 == frame[1],
        spec_split(frame).2 == frame.skip(2),
        spec_split(frame).2.len() == frame.len() - 2,
        forall|i: int| 0 <= i < frame.len() - 2 ==> #[trigger] spec_split(frame).2[i] == frame[i + 2],
{
}

/// Taking a frame apart gives back exactly the tags and the payload it was built from.
pub proof fn lemma_frame_roundtrip(frame_tag: u8, message_tag: u8, payload: Seq<u8>)
    ensures
        spec_frame(frame_tag, message_tag, payload).len() == payload.len() + 2,
        spec_split(spec_frame(frame_tag, message_tag, payload)) == (frame_tag, message_tag, payload),
{
    assert(spec_frame(frame_tag, message_tag, payload).skip(2) =~= payload);
}

/// Every frame of at least two bytes is the frame of its own parts.
pub proof fn lemma_split_rebuilds(frame: Seq<u8>)
    requires
        frame.len() >= 2,
    ensures
        spec_frame(spec_split(frame).0, spec_split(frame).1, spec_split(frame).2) == frame,
{
    assert(spec_frame(frame[0], frame[1], frame.skip(2)) =~= frame);
}

} // verus!
