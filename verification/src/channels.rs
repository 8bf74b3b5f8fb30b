//! The channels of `tokio::sync` that tie the daemon's parts together: one
//! bounded `mpsc` channel per module for the frames addressed to it, and one
//! `broadcast` channel on which modules publish frames for the clients.

use bytes::Bytes;
use tokio::sync::broadcast;
use tokio::sync::mpsc;
use vstd::prelude::*;

verus! {

/// `tokio::sync::mpsc::Sender`, the sending half of a bounded channel.
#[verifier::external_type_specification]
#[verifier::external_body]
#[verifier::reject_recursive_types(T)]
pub struct ExMpscSender<T>(tokio::sync::mpsc::Sender<T>);

/// `tokio::sync::mpsc::Receiver`, the receiving half of a bounded channel.
#[verifier::external_type_specification]
#[verifier::external_body]
#[verifier::reject_recursive_types(T)]
pub struct ExMpscReceiver<T>(tokio::sync::mpsc::Receiver<T>);

/// `tokio::sync::broadcast::Sender`, the sending half of a broadcast channel.
#[verifier::external_type_specification]
#[verifier::external_body]
#[verifier::reject_recursive_types(T)]
pub struct ExBroadcastSender<T>(tokio::sync::broadcast::Sender<T>);

/// `tokio::sync::broadcast::Receiver`, one receiving handle of a broadcast channel.
#[verifier::external_type_specification]
#[verifier::external_body]
#[verifier::reject_recursive_types(T)]
pub struct ExBroadcastReceiver<T>(tokio::sync::broadcast::Receiver<T>);

/// The channel an mpsc sender feeds: the shared channel state its `Arc` points to,
/// which is what `Sender::same_channel` compares.
pub uninterp spec fn sender_channel(s: mpsc::Sender<(u8, Bytes)>) -> int;

/// The channel an mpsc receiver drains: the shared channel state its `Arc` points to.
pub uninterp spec fn receiver_channel(r: mpsc::Receiver<(u8, Bytes)>) -> int;

/// The bound an mpsc sender's channel was made with, which `Sender::max_capacity` returns.
pub uninterp spec fn sender_capacity(s: mpsc::Sender<(u8, Bytes)>) -> nat;

/// The broadcast channel a broadcast sender publishes on: the shared state its `Arc`
/// points to, which is what `Sender::same_channel` compares.
pub uninterp spec fn broadcast_sender_channel(s: broadcast::Sender<Bytes>) -> int;

/// The broadcast channel a broadcast receiver listens on: the shared state its `Arc` points to.
pub uninterp spec fn broadcast_receiver_channel(r: broadcast::Receiver<Bytes>) -> int;

/// `tokio::sync::mpsc::channel`: a new bounded channel with room for `buffer` messages.
/// It asserts `buffer > 0`, and its semaphore asserts `buffer <= usize::MAX >> 3`.
/// Both halves are built over one shared channel (`chan::channel`), whose semaphore
/// records `buffer` as its bound.
#[verifier::external_body]
pub(crate) fn mpsc_channel(buffer: usize) -> (r: (mpsc::Sender<(u8, Bytes)>, mpsc::Receiver<(u8, Bytes)>))
    requires
        0 < buffer <= usize::MAX / 8,
    ensures
        sender_channel(r.0) == receiver_channel(r.1),
        sender_capacity(r.0) == buffer,
{
    mpsc::channel(buffer)
}

/// `Clone` for `tokio::sync::mpsc::Sender`. The sender is one `Arc` pointer to the
/// shared channel, and cloning copies that pointer (and raises a count kept inside
/// the channel), so the new handle equals the old one field for field.
#[verifier::external_body]
pub(crate) fn mpsc_sender_clone(s: &mpsc::Sender<(u8, Bytes)>) -> (r: mpsc::Sender<(u8, Bytes)>)
    ensures
        r == *s,
{
    s.clone()
}

/// `Clone` for `tokio::sync::broadcast::Sender`. The sender is one `Arc` pointer to
/// the shared state, and cloning copies that pointer (and raises a count kept
/// inside it), so the new handle equals the old one field for field.
#[verifier::external_body]
pub(crate) fn broadcast_sender_clone(s: &broadcast::Sender<Bytes>) -> (r: broadcast::Sender<Bytes>)
    ensures
        r == *s,
{
    s.clone()
}

/// `tokio::sync::broadcast::Sender::subscribe`: a new receiver on the sender's own
/// channel (it clones the sender's shared state), which gets the values sent after
/// the call. Left unsaid: that it starts at the current tail, and the assertion it
/// makes that fewer than `usize::MAX >> 2` receivers exist, a count held inside the
/// channel that no argument shows.
#[verifier::external_body]
pub(crate) fn broadcast_subscribe(s: &broadcast::Sender<Bytes>) -> (r: broadcast::Receiver<Bytes>)
    ensures
        broadcast_receiver_channel(r) == broadcast_sender_channel(*s),
{
    s.subscribe()
}

} // verus!
