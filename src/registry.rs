//! The set of chats subscribed to the daily broadcast.
use std::collections::HashSet;
use vstd::prelude::*;

verus! {

broadcast use vstd::std_specs::hash::group_hash_axioms;

/// Identifier of a chat.
pub type SubscriberId = i64;

/// Chats that asked for the daily broadcast and have not cancelled it.
///
/// The registry performs no locking itself: every mutation takes `&mut self`,
/// so callers that share one registry across tasks hold it behind a lock.
pub struct SubscriptionRegistry {
    ids: HashSet<SubscriberId>,
}

impl View for SubscriptionRegistry {
    type V = Set<SubscriberId>;

    closed spec fn view(&self) -> Set<SubscriberId> {
        self.ids@
    }
}

impl SubscriptionRegistry {
    /// An empty registry.
    pub fn new() -> (r: SubscriptionRegistry)
        ensures
            r@ == Set::<SubscriberId>::empty(),
    {
        SubscriptionRegistry { ids: HashSet::new() }
    }

    /// Adds `id`; adding a member again changes nothing.
    pub fn subscribe(&mut self, id: SubscriberId)
        ensures
            final(self)@ == old(self)@.insert(id),
    {
        self.ids.insert(id);
    }

    /// Removes `id`; removing a non-member changes nothing.
    pub fn unsubscribe(&mut self, id: SubscriberId)
        ensures
            final(self)@ == old(self)@.remove(id),
    {
        self.ids.remove(&id);
    }

    /// Whether `id` is subscribed.
    pub fn contains(&self, id: SubscriberId) -> (r: bool)
        ensures
            r == self@.contains(id),
    {
        self.ids.contains(&id)
    }

    /// Number of subscribed chats.
    pub fn len(&self) -> (r: usize)
        ensures
            r == self@.len(),
    {
        self.ids.len()
    }

    /// A copy of the members at the moment of the call, each listed once, in
    /// no particular order.
    pub fn snapshot(&self) -> (r: Vec<SubscriberId>)
        ensures
            r@.to_set() == self@,
            r@.no_duplicates(),
    {
        let mut out: Vec<SubscriberId> = Vec::new();
        for id in it: self.ids.iter()
            invariant
                out@ == it.seq().take(it.index() as int).unref(),
                it.seq().unref().to_set() == self.ids@,
                it.seq().unref().no_duplicates(),
                it.index() == it.seq().len() ==> out@ == it.seq().unref(),
        {
            out.push(*id);
            proof {
                assert(it.seq().take(it.seq().len() as int) =~= it.seq());
            }
        }
        out
    }
}

/// Subscribing then cancelling leaves `id` out, whatever the registry held.
pub proof fn lemma_subscribe_then_unsubscribe(r: Set<SubscriberId>, id: SubscriberId)
    ensures
        !r.insert(id).remove(id).contains(id),
        r.insert(id).contains(id),
        !r.contains(id) ==> r.insert(id).remove(id) == r,
{
    assert(!r.contains(id) ==> r.insert(id).remove(id) =~= r);
}

} // verus!
