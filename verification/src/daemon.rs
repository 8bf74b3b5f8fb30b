//! What the daemon decides around its socket: what each new client connection
//! gets to work with, and what becomes of each frame a client sends.

use crate::buffers::{bytes_content, bytes_mut_content, bytes_mut_len};
use crate::channels::{
    broadcast_receiver_channel, broadcast_sender_channel, broadcast_subscribe, receiver_channel,
    sender_channel,
};
use crate::registry::{spec_route, Router};
use crate::wire::{spec_frame, spec_split, split_frame, lemma_frame_roundtrip};
use bytes::Bytes;
use bytes::BytesMut;
use tokio::sync::broadcast;
use tokio::sync::mpsc;
use vstd::prelude::*;

verus! {

/// The background server that accepts client connections.
pub struct Daemon;

/// Serves one client connection: frames in, to the modules; frames out, to the client.
pub struct Dispatcher;

/// What becomes of a frame a client sent.
pub enum Ingress<'a> {
    /// Send `message` (message tag and payload) on the channel of the module the frame is addressed to.
    Deliver { module_tag: u8, sender: &'a mpsc::Sender<(u8, Bytes)>, message: (u8, Bytes) },
    /// No module is registered under the frame's module tag: the frame is dropped.
    Unroutable { module_tag: u8 },
    /// The frame is shorter than its two tag bytes.
    Malformed,
}

/// Where a frame goes through `routes`, and what it carries there: the module's
/// sender, the message tag and the payload; nothing for a frame shorter than its
/// two tag bytes or addressed to a tag that no module holds.
pub open spec fn spec_delivery(
    routes: Map<u8, mpsc::Sender<(u8, Bytes)>>,
    frame: Seq<u8>,
) -> Option<(mpsc::Sender<(u8, Bytes)>, u8, Seq<u8>)> {
    if frame.len() >= 2 && routes.contains_key(spec_split(frame).0) {
        Some((routes[spec_split(frame).0], spec_split(frame).1, spec_split(frame).2))
    } else {
        None
    }
}

impl Daemon {
    /// What a newly accepted client connection is served with: its own handle on
    /// the routing table, and its own subscription to the egress bus.
    pub fn session(router: &Router, egress_tx: &broadcast::Sender<Bytes>) -> (r: (Router, broadcast::Receiver<Bytes>))
        ensures
            r.0.view() == router.view(),
            broadcast_receiver_channel(r.1) == broadcast_sender_channel(*egress_tx),
    {
        let client_router = router.clone();
        let client_egress_rx = broadcast_subscribe(egress_tx);
        (client_router, client_egress_rx)
    }
}

impl Dispatcher {
    /// Decides what becomes of a frame received from the client: it is taken apart
    /// into module tag, message tag and payload, and routed by its module tag.
    pub fn ingress<'a>(router: &'a Router, raw: BytesMut) -> (r: Ingress<'a>)
        ensures
            (r is Malformed) <==> bytes_mut_content(raw).len() < 2,
            match r {
                Ingress::Deliver { module_tag, sender, message } => spec_delivery(router.view(), bytes_mut_content(raw))
                    == Some((*sender, message.0, bytes_content(message.1)))
                    && module_tag == bytes_mut_content(raw)[0],
                Ingress::Unroutable { module_tag } => spec_delivery(router.view(), bytes_mut_content(raw)) is None
                    && module_tag == bytes_mut_content(raw)[0],
                Ingress::Malformed => spec_delivery(router.view(), bytes_mut_content(raw)) is None,
            },
    {
        if bytes_mut_len(&raw) < 2 {
            return Ingress::Malformed;
        }
        let ghost frame = bytes_mut_content(raw);
        let (module_tag, message_tag, payload) = split_frame(raw);
        let ghost p = bytes_content(payload);
        match router.route(module_tag, message_tag, payload) {
            Ok((sender, message)) => {
                assert(bytes_content(message.1) == p);
                Ingress::Deliver { module_tag, sender, message }
            },
            Err(module_tag) => Ingress::Unroutable { module_tag },
        }
    }
}

/// A frame built for module `frame_tag` reaches that module's channel with exactly
/// its message tag and payload, when a module is registered under the tag; otherwise
/// it reaches no module.
pub proof fn lemma_frame_reaches_module(
    routes: Map<u8, mpsc::Sender<(u8, Bytes)>>,
    frame_tag: u8,
    message_tag: u8,
    payload: Seq<u8>,
)
    ensures
        spec_delivery(routes, spec_frame(frame_tag, message_tag, payload)) == (match spec_route(routes, frame_tag) {
            Some(sender) => Some((sender, message_tag, payload)),
            None => None,
        }),
{
    lemma_frame_roundtrip(frame_tag, message_tag, payload);
}

/// A frame built for a module reaches the receiver registered for that module: it is
/// handed, with exactly its message tag and payload, to a sender of that receiver's channel.
pub proof fn lemma_frame_reaches_receiver(
    routes: Map<u8, mpsc::Sender<(u8, Bytes)>>,
    frame_tag: u8,
    message_tag: u8,
    payload: Seq<u8>,
    rx: mpsc::Receiver<(u8, Bytes)>,
)
    requires
        routes.contains_key(frame_tag),
        sender_channel(routes[frame_tag]) == receiver_channel(rx),
    ensures
        spec_delivery(routes, spec_frame(frame_tag, message_tag, payload)) matches Some((s, t, p))
            && sender_channel(s) == receiver_channel(rx) && t == message_tag && p == payload,
{
    lemma_frame_reaches_module(routes, frame_tag, message_tag, payload);
}

/// A received frame of at least two bytes is routed by its own first byte: it is
/// handed, with its second byte as message tag and every later byte as payload, to
/// the module registered under its first byte, and to none when that byte is no
/// registered module's tag.
pub proof fn lemma_delivery_by_first_byte(routes: Map<u8, mpsc::Sender<(u8, Bytes)>>, frame: Seq<u8>)
    requires
        frame.len() >= 2,
    ensures
        routes.contains_key(frame[0]) ==> spec_delivery(routes, frame) == Some((routes[frame[0]], frame[1], frame.skip(2))),
        !routes.contains_key(frame[0]) ==> spec_delivery(routes, frame) is None,
{
}

} // verus!
