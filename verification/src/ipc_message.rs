//! What every message type that travels between the client and the daemon declares.

use vstd::prelude::*;

verus! {

/// A message type that can be sent in a frame: the module it is addressed to,
/// and its own tag among that module's messages.
pub trait IpcMessage {
    const FRAME_TAG: u8;
    const MESSAGE_TAG: u8;
}

} // verus!
