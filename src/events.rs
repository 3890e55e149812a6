//! A bounded publish/subscribe channel for call events.
//!
//! Publishing never waits for subscribers. The channel keeps only the most
//! recent events, up to its capacity; a subscriber that falls further behind
//! misses the older ones and continues with the oldest event still kept.

use vstd::prelude::*;
use crate::types::CallEvent;

verus! {

/// Broadcast channel of call events with a bounded buffer.
pub struct EventBus {
    capacity: usize,
    retained: Vec<CallEvent>,
    published: u64,
    cursors: Vec<u64>,
    history: Ghost<Seq<CallEvent>>,
}

/// Where a subscriber reading from `cursor` continues when the events before
/// `first` are no longer kept.
pub open spec fn resume_at(cursor: nat, first: nat) -> nat {
    if cursor < first { first } else { cursor }
}

impl EventBus {
    /// Every event published so far, in order.
    pub closed spec fn history(&self) -> Seq<CallEvent> {
        self.history@
    }

    /// Buffer bound given at creation.
    pub closed spec fn spec_capacity(&self) -> nat {
        self.capacity as nat
    }

    /// Index in the history of the next event each subscriber reads.
    pub closed spec fn cursors(&self) -> Seq<nat> {
        self.cursors@.map_values(|c: u64| c as nat)
    }

    /// Index in the history of the oldest event still kept.
    pub closed spec fn first_kept(&self) -> nat {
        (self.published - self.retained@.len()) as nat
    }

    /// Some event is kept whenever any was published.
    pub proof fn lemma_first_kept(&self)
        requires
            self.wf(),
        ensures
            self.first_kept() <= self.history().len(),
            self.history().len() > 0 ==> self.first_kept() < self.history().len(),
    {
    }

    /// Internal consistency of the channel.
    pub closed spec fn wf(&self) -> bool {
        &&& self.capacity > 0
        &&& self.retained@.len() <= self.capacity
        &&& self.published as nat == self.history@.len()
        &&& self.retained@.len() <= self.published
        &&& self.published > 0 ==> self.retained@.len() > 0
        &&& self.retained@ == self.history@.subrange(
            self.published - self.retained@.len(),
            self.published as int,
        )
        &&& forall|i: int| 0 <= i < self.cursors@.len() ==> self.cursors@[i] <= self.published
    }

    /// An empty channel that keeps at most `capacity` events.
    pub fn new(capacity: usize) -> (r: Self)
        requires
            capacity > 0,
        ensures
            r.wf(),
            r.spec_capacity() == capacity,
            r.history() == Seq::<CallEvent>::empty(),
            r.cursors() == Seq::<nat>::empty(),
    {
        let r = EventBus {
            capacity,
            retained: Vec::new(),
            published: 0,
            cursors: Vec::new(),
            history: Ghost(Seq::empty()),
        };
        assert(r.cursors() =~= Seq::<nat>::empty());
        assert(r.retained@ =~= r.history@.subrange(0, 0));
        r
    }

    /// Number of subscribers.
    pub fn subscriber_count(&self) -> (r: usize)
        ensures
            r == self.cursors().len(),
    {
        self.cursors.len()
    }

    /// Adds a subscriber, which sees the events published from now on.
    pub fn subscribe(&mut self) -> (r: usize)
        requires
            old(self).wf(),
        ensures
            final(self).wf(),
            r == old(self).cursors().len(),
            final(self).cursors() == old(self).cursors().push(old(self).history().len()),
            final(self).history() == old(self).history(),
            final(self).first_kept() == old(self).first_kept(),
            final(self).spec_capacity() == old(self).spec_capacity(),
    {
        let r = self.cursors.len();
        self.cursors.push(self.published);
        assert(self.cursors() =~= old(self).cursors().push(old(self).history().len()));
        r
    }

    /// Publishes an event to every subscriber without waiting for any.
    /// When the buffer is full the oldest kept event is dropped. Returns
    /// false, publishing nothing, once the event counter is exhausted.
    pub fn publish(&mut self, e: CallEvent) -> (r: bool)
        requires
            old(self).wf(),
        ensures
            final(self).wf(),
            r == (old(self).history().len() < u64::MAX),
            r ==> final(self).history() == old(self).history().push(e),
            !r ==> final(self).history() == old(self).history(),
            final(self).cursors() == old(self).cursors(),
            final(self).spec_capacity() == old(self).spec_capacity(),
    {
        if self.published == u64::MAX {
            return false;
        }
        let ghost old_retained = self.retained@;
        let ghost h = self.history@;
        if self.retained.len() == self.capacity {
            self.retained.remove(0);
        }
        self.retained.push(e);
        self.published = self.published + 1;
        self.history = Ghost(h.push(e));
        assert(self.retained@ =~= self.history@.subrange(
            self.published - self.retained@.len(),
            self.published as int,
        ));
        true
    }

    /// The next event for subscriber `sub`, skipping those no longer kept,
    /// or None when it has read everything published.
    pub fn recv(&mut self, sub: usize) -> (r: Option<CallEvent>)
        requires
            old(self).wf(),
            sub < old(self).cursors().len(),
        ensures
            final(self).wf(),
            final(self).history() == old(self).history(),
            final(self).first_kept() == old(self).first_kept(),
            final(self).spec_capacity() == old(self).spec_capacity(),
            ({
                let at = resume_at(old(self).cursors()[sub as int], old(self).first_kept());
                &&& at >= old(self).history().len() ==> r is None && final(self).cursors()
                    == old(self).cursors()
                &&& at < old(self).history().len() ==> r == Some(old(self).history()[at as int])
                    && final(self).cursors() == old(self).cursors().update(sub as int, at + 1)
            }),
    {
        let first = self.published - self.retained.len() as u64;
        let c = self.cursors[sub];
        let at = if c < first { first } else { c };
        if at == self.published {
            return None;
        }
        let e = self.retained[(at - first) as usize];
        self.cursors.set(sub, at + 1);
        assert(self.cursors() =~= old(self).cursors().update(sub as int, (at + 1) as nat));
        Some(e)
    }
}

} // verus!
