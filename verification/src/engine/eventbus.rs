//! Who hears what a piece says.
//!
//! Pieces subscribe under their name. What one of them says goes to every
//! subscriber but those of its own name. The bus knows names only: it says who
//! is to hear an event, and the scene delivers it.

use vstd::prelude::*;
use crate::engine::sprite::same_name;

verus! {

/// The number of subscribers that a bus takes.
pub const MAX_SUBS: usize = 5;

/// Whether the subscriber at `position` is to hear what `sender` says.
pub open spec fn hears(names: Seq<&'static str>, sender: Seq<char>, position: int) -> bool {
    0 <= position < names.len() && names[position]@ != sender
}

/// The subscribers of a scene.
pub struct EventBus {
    subscriptions: Vec<&'static str>,
}

impl EventBus {
    /// The names of the subscribers, in the order in which they subscribed.
    pub closed spec fn view(&self) -> Seq<&'static str> {
        self.subscriptions@
    }

    /// A bus without subscribers.
    pub fn new() -> (bus: Self)
        ensures
            bus@ == Seq::<&'static str>::empty(),
    {
        Self { subscriptions: Vec::new() }
    }

    /// Says who is to hear what the piece named `sender` says: the positions of
    /// all subscribers of another name, in rising order.
    pub fn broadcast(&self, sender: &str) -> (recipients: Vec<usize>)
        ensures
            forall|k: int|
                0 <= k < recipients.len() ==> hears(self@, sender@, #[trigger] recipients[k] as int),
            forall|j: int, k: int|
                0 <= j < k < recipients.len() ==> recipients[j] < recipients[k],
            forall|position: int|
                hears(self@, sender@, position) ==> exists|k: int|
                    0 <= k < recipients.len() && #[trigger] recipients[k] == position,
    {
        let mut recipients: Vec<usize> = Vec::new();
        let mut i: usize = 0;
        while i < self.subscriptions.len()
            invariant
                i <= self.subscriptions.len(),
                forall|k: int|
                    0 <= k < recipients.len() ==> hears(self@, sender@, #[trigger] recipients[k] as int)
                        && recipients[k] < i,
                forall|j: int, k: int|
                    0 <= j < k < recipients.len() ==> recipients[j] < recipients[k],
                forall|position: int|
                    hears(self@, sender@, position) && position < i ==> exists|k: int|
                        0 <= k < recipients.len() && #[trigger] recipients[k] == position,
            decreases self.subscriptions.len() - i,
        {
            if !same_name(self.subscriptions[i], sender) {
                let ghost before = recipients@;
                recipients.push(i);
                assert forall|position: int|
                    hears(self@, sender@, position) && position < i + 1 implies exists|k: int|
                    0 <= k < recipients.len() && #[trigger] recipients[k] == position by {
                    if position < i {
                        let k = choose|k: int| 0 <= k < before.len() && #[trigger] before[k] == position;
                        assert(recipients[k] == position);
                    } else {
                        assert(recipients[before.len() as int] == position);
                    }
                }
            }
            i += 1;
        }
        recipients
    }

    /// Takes `name` as a subscriber, unless the bus is full. Says whether it
    /// did.
    pub fn subscribe(&mut self, name: &'static str) -> (accepted: bool)
        ensures
            accepted == (old(self)@.len() < MAX_SUBS),
            accepted ==> final(self)@ == old(self)@.push(name),
            !accepted ==> final(self)@ == old(self)@,
    {
        if self.subscriptions.len() < MAX_SUBS {
            self.subscriptions.push(name);
            true
        } else {
            false
        }
    }

    /// The number of subscribers.
    pub fn len(&self) -> (count: usize)
        ensures
            count == self@.len(),
    {
        self.subscriptions.len()
    }
}

} // verus!
