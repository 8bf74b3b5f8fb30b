//! The daemon's modules, as far as their decisions go.

use crate::tennis::MessageTag;
use bytes::Bytes;
use tokio::sync::broadcast;
use vstd::prelude::*;

verus! {

/// A module that holds no state.
pub struct PingPongModule {}

/// The tennis module: reacts to pings and pongs from the client.
#[allow(dead_code)]
pub struct TennisModule {
    egress_tx: broadcast::Sender<Bytes>,
}

/// What the tennis module does with what its channel yields.
pub enum TennisAction {
    /// Decode the payload as a `Ping` and handle it.
    HandlePing(Bytes),
    /// Decode the payload as a `Pong` and handle it.
    HandlePong(Bytes),
    /// The message tag is none of the module's; the frame is dropped.
    UnknownTag(u8),
    /// The channel yielded nothing.
    ReceiveFailed,
}

impl TennisModule {
    /// Decides, for each item the module's channel yields, which handler runs on it.
    pub fn dispatch(event: Option<(u8, Bytes)>) -> (r: TennisAction)
        ensures
            match event {
                None => r is ReceiveFailed,
                Some((tag, payload)) => match MessageTag::spec_from_u8(tag) {
                    Some(MessageTag::Ping) => r == TennisAction::HandlePing(payload),
                    Some(MessageTag::Pong) => r == TennisAction::HandlePong(payload),
                    None => r == TennisAction::UnknownTag(tag),
                },
            },
    {
        match event {
            Some((tag, payload)) => match MessageTag::try_from_primitive(tag) {
                Ok(MessageTag::Ping) => TennisAction::HandlePing(payload),
                Ok(MessageTag::Pong) => TennisAction::HandlePong(payload),
                Err(tag) => TennisAction::UnknownTag(tag),
            },
            None => TennisAction::ReceiveFailed,
        }
    }
}

} // verus!
