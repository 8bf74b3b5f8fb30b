//! The routing table: which module, by its one-byte tag, receives the frames
//! addressed to it, and through which channel.

use crate::channels::{
    broadcast_sender_clone, mpsc_channel, mpsc_sender_clone, receiver_channel, sender_capacity,
    sender_channel,
};
use bytes::Bytes;
use tokio::sync::broadcast;
use tokio::sync::mpsc;
use vstd::prelude::*;

verus! {

/// One slot per possible module tag.
pub const MODULE_SLOTS: usize = 256;

/// The registered routes of a table of slots: each tag whose slot holds a sender, to that sender.
pub open spec fn routes_of(slots: Seq<Option<mpsc::Sender<(u8, Bytes)>>>) -> Map<u8, mpsc::Sender<(u8, Bytes)>> {
    Map::new(|t: u8| slots[t as int] is Some, |t: u8| slots[t as int].unwrap())
}

/// What routing a message for `module_tag` through `routes` comes to: the sender of
/// that module, or nothing when no module is registered under the tag.
pub open spec fn spec_route(routes: Map<u8, mpsc::Sender<(u8, Bytes)>>, module_tag: u8) -> Option<mpsc::Sender<(u8, Bytes)>> {
    if routes.contains_key(module_tag) {
        Some(routes[module_tag])
    } else {
        None
    }
}

/// The read-only routing table the dispatchers use.
pub struct Router {
    routes: Vec<Option<mpsc::Sender<(u8, Bytes)>>>,
}

/// Collects the modules' routes before the router is built.
pub struct ModuleRegistry {
    routes: Vec<Option<mpsc::Sender<(u8, Bytes)>>>,
    egress_tx: broadcast::Sender<Bytes>,
}

impl Router {
    #[verifier::type_invariant]
    closed spec fn inv(self) -> bool {
        self.routes@.len() == MODULE_SLOTS
    }

    /// The registered routes, by module tag.
    pub closed spec fn view(&self) -> Map<u8, mpsc::Sender<(u8, Bytes)>> {
        routes_of(self.routes@)
    }

    /// Routes a message for module `module_tag`: the sender of that module's channel
    /// together with the message to send on it, or the tag back when no module is
    /// registered under it (the frame is then dropped).
    pub fn route(&self, module_tag: u8, message_tag: u8, payload: Bytes) -> (r: Result<(&mpsc::Sender<(u8, Bytes)>, (u8, Bytes)), u8>)
        ensures
            match r {
                Ok((sender, message)) => spec_route(self.view(), module_tag) == Some(*sender)
                    && message == (message_tag, payload),
                Err(tag) => spec_route(self.view(), module_tag) is None && tag == module_tag,
            },
    {
        proof {
            use_type_invariant(self);
        }
        match &self.routes[module_tag as usize] {
            Some(sender) => Ok((sender, (message_tag, payload))),
            None => Err(module_tag),
        }
    }

    /// Whether a module is registered under `module_tag`.
    pub fn has_route(&self, module_tag: u8) -> (r: bool)
        ensures
            r == self.view().contains_key(module_tag),
    {
        proof {
            use_type_invariant(self);
        }
        self.routes[module_tag as usize].is_some()
    }
}

impl Clone for Router {
    /// Another handle on the same routes: each sender is cloned, which keeps its channel.
    fn clone(&self) -> (r: Router)
        ensures
            r.view() == self.view(),
    {
        proof {
            use_type_invariant(self);
        }
        let mut routes: Vec<Option<mpsc::Sender<(u8, Bytes)>>> = Vec::new();
        let mut i: usize = 0;
        while i < MODULE_SLOTS
            invariant
                self.routes@.len() == MODULE_SLOTS,
                i <= MODULE_SLOTS,
                routes@.len() == i,
                forall|j: int| 0 <= j < i ==> routes@[j] == self.routes@[j],
            decreases MODULE_SLOTS - i,
        {
            let slot = match &self.routes[i] {
                Some(sender) => Some(mpsc_sender_clone(sender)),
                None => None,
            };
            routes.push(slot);
            i = i + 1;
        }
        assert(routes@ =~= self.routes@);
        Router { routes }
    }
}

impl ModuleRegistry {
    /// The registry has one slot per module tag.
    pub closed spec fn wf(&self) -> bool {
        self.routes@.len() == MODULE_SLOTS
    }

    /// The routes registered so far, by module tag.
    pub closed spec fn view(&self) -> Map<u8, mpsc::Sender<(u8, Bytes)>> {
        routes_of(self.routes@)
    }

    /// The global egress bus that every module publishes on.
    pub closed spec fn egress(&self) -> broadcast::Sender<Bytes> {
        self.egress_tx
    }

    /// A registry with no module registered, over the given egress bus.
    pub fn new(egress_tx: broadcast::Sender<Bytes>) -> (r: ModuleRegistry)
        ensures
            r.wf(),
            r.view() == Map::<u8, mpsc::Sender<(u8, Bytes)>>::empty(),
            r.egress() == egress_tx,
    {
        let mut routes: Vec<Option<mpsc::Sender<(u8, Bytes)>>> = Vec::new();
        let mut i: usize = 0;
        while i < MODULE_SLOTS
            invariant
                i <= MODULE_SLOTS,
                routes@.len() == i,
                forall|j: int| 0 <= j < i ==> routes@[j] is None,
            decreases MODULE_SLOTS - i,
        {
            routes.push(None);
            i = i + 1;
        }
        let r = ModuleRegistry { routes, egress_tx };
        assert(r.view() =~= Map::<u8, mpsc::Sender<(u8, Bytes)>>::empty());
        r
    }

    /// Whether a module is registered under `tag` already.
    pub fn is_registered(&self, tag: u8) -> (r: bool)
        requires
            self.wf(),
        ensures
            r == self.view().contains_key(tag),
    {
        self.routes[tag as usize].is_some()
    }

    /// Registers a module under `tag`: creates its channel with room for
    /// `buffer_size` messages, keeps the sending half as the module's route, and
    /// returns the receiving half with a handle on the egress bus: frames routed to
    /// `tag` from now on arrive at the returned receiver.
    /// A tag can be registered once; a second registration is refused.
    pub fn register(&mut self, tag: u8, buffer_size: usize) -> (r: (mpsc::Receiver<(u8, Bytes)>, broadcast::Sender<Bytes>))
        requires
            old(self).wf(),
            !old(self).view().contains_key(tag),
            0 < buffer_size <= usize::MAX / 8,
        ensures
            final(self).wf(),
            final(self).view().dom() == old(self).view().dom().insert(tag),
            sender_channel(final(self).view()[tag]) == receiver_channel(r.0),
            sender_capacity(final(self).view()[tag]) == buffer_size,
            forall|t: u8| t != tag && old(self).view().contains_key(t) ==> final(self).view()[t] == old(self).view()[t],
            final(self).egress() == old(self).egress(),
            r.1 == old(self).egress(),
    {
        let (tx_module, rx_module) = mpsc_channel(buffer_size);
        let ghost route = tx_module;
        self.routes.set(tag as usize, Some(tx_module));
        assert(self.view().dom() =~= old(self).view().dom().insert(tag));
        assert(self.view()[tag] == route);
        (rx_module, broadcast_sender_clone(&self.egress_tx))
    }

    /// Hands the registered routes over to a read-only router.
    pub fn build(self) -> (r: Router)
        requires
            self.wf(),
        ensures
            r.view() == self.view(),
    {
        Router { routes: self.routes }
    }
}

/// Registering a module under a tag makes frames for that tag reach the channel of
/// the receiver handed out for it, and leaves where every other tag's frames go as it was.
pub proof fn lemma_register_routes(
    before: Map<u8, mpsc::Sender<(u8, Bytes)>>,
    after: Map<u8, mpsc::Sender<(u8, Bytes)>>,
    tag: u8,
    other: u8,
    rx: mpsc::Receiver<(u8, Bytes)>,
)
    requires
        after.dom() == before.dom().insert(tag),
        sender_channel(after[tag]) == receiver_channel(rx),
        forall|t: u8| t != tag && before.contains_key(t) ==> after[t] == before[t],
        other != tag,
    ensures
        spec_route(after, tag) matches Some(s) && sender_channel(s) == receiver_channel(rx),
        spec_route(after, other) == spec_route(before, other),
{
    assert(after.dom().contains(tag));
    assert(after.contains_key(other) == before.contains_key(other));
}

/// A registry that was just created routes no frame anywhere.
pub proof fn lemma_empty_routes_nothing(tag: u8)
    ensures
        spec_route(Map::<u8, mpsc::Sender<(u8, Bytes)>>::empty(), tag) is None,
{
}

} // verus!
