//! The broadcaster core: the snapshot store, the fan-out channel and the
//! producer step, kept together so that a commit and its publication happen
//! as one step and a new subscriber reads the store and joins the channel as
//! one step.
use crate::fanout::{Delivery, FanOut, MailboxView, fresh_mailbox, publish_all, registered};
use crate::snapshot::{Snapshot, compute_snapshot};
use std::sync::Arc;
use vstd::prelude::*;

verus! {

/// The backlog bound of each subscriber's mailbox.
pub const BACKLOG: usize = 64;

/// The single-slot cache of the most recently produced snapshot.
pub struct SnapshotStore {
    current: Arc<Snapshot>,
}

impl SnapshotStore {
    pub closed spec fn view(&self) -> Arc<Snapshot> {
        self.current
    }

    /// A store seeded with `seed`.
    pub fn new(seed: Snapshot) -> (r: SnapshotStore)
        ensures
            *r@ == seed,
    {
        SnapshotStore { current: Arc::new(seed) }
    }

    /// The current snapshot, shared rather than copied.
    pub fn get(&self) -> (r: Arc<Snapshot>)
        ensures
            r == self@,
    {
        self.current.clone()
    }

    /// Replaces the current snapshot as a whole.
    pub fn set(&mut self, next: Arc<Snapshot>)
        ensures
            final(self)@ == next,
    {
        self.current = next;
    }
}

/// The tick that follows `t`, saturating at the largest tick.
pub open spec fn tick_after(t: u64) -> u64 {
    if t == u64::MAX {
        t
    } else {
        (t + 1) as u64
    }
}

/// Store, channel and tick counter of the producer.
pub struct Hub {
    store: SnapshotStore,
    channel: FanOut,
    next_tick: u64,
}

/// `b` is `a` after committing and publishing `next`.
pub open spec fn committed(a: Hub, b: Hub, next: Snapshot) -> bool {
    &&& b.wf()
    &&& *b.current() == next
    &&& b.mailboxes() == publish_all(a.mailboxes(), b.current(), a.capacity())
    &&& b.capacity() == a.capacity()
    &&& b.next_tick() == tick_after(a.next_tick())
}

/// `b` is `a` after one producer cycle.
pub open spec fn produced(a: Hub, b: Hub) -> bool {
    &&& b.current().tick == a.next_tick()
    &&& b.current().consistent()
    &&& committed(a, b, *b.current())
}

/// `b` is `a` after a subscriber joined as `id`, having been handed `first`.
pub open spec fn connected(a: Hub, b: Hub, first: Arc<Snapshot>, id: u64) -> bool {
    &&& b.wf()
    &&& first == a.current()
    &&& b.current() == a.current()
    &&& !registered(a.mailboxes(), id)
    &&& b.mailboxes() == a.mailboxes().push(fresh_mailbox(id))
    &&& b.capacity() == a.capacity()
    &&& b.next_tick() == a.next_tick()
}

/// `b` is `a` after subscriber `id` left.
pub open spec fn disconnected(a: Hub, b: Hub, id: u64) -> bool {
    &&& b.wf()
    &&& b.current() == a.current()
    &&& !registered(b.mailboxes(), id)
    &&& !registered(a.mailboxes(), id) ==> b.mailboxes() == a.mailboxes()
    &&& forall|i: int|
        0 <= i < a.mailboxes().len() && #[trigger] a.mailboxes()[i].id == id ==> b.mailboxes()
            == a.mailboxes().remove(i)
    &&& b.capacity() == a.capacity()
    &&& b.next_tick() == a.next_tick()
}

impl Hub {
    /// The snapshot in the store.
    pub closed spec fn current(&self) -> Arc<Snapshot> {
        self.store@
    }

    /// The subscribers' mailboxes, in order of subscription.
    pub closed spec fn mailboxes(&self) -> Seq<MailboxView> {
        self.channel@
    }

    pub closed spec fn capacity(&self) -> nat {
        self.channel.capacity()
    }

    /// The tick that the next producer cycle computes.
    pub closed spec fn next_tick(&self) -> u64 {
        self.next_tick
    }

    /// Every subscription identifier has been handed out.
    pub closed spec fn ids_exhausted(&self) -> bool {
        self.channel.next_id() == u64::MAX
    }

    pub closed spec fn wf(&self) -> bool {
        self.channel.wf()
    }

    /// A well-formed hub has room for at least one snapshot per subscriber,
    /// and its subscribers have distinct identifiers.
    pub proof fn lemma_wf(&self)
        requires
            self.wf(),
        ensures
            self.capacity() > 0,
            forall|i: int, j: int|
                0 <= i < self.mailboxes().len() && 0 <= j < self.mailboxes().len() && i != j
                    ==> #[trigger] self.mailboxes()[i].id != #[trigger] self.mailboxes()[j].id,
    {
    }

    /// A hub whose store holds `seed`, with no subscribers, whose producer
    /// starts at tick 1 and whose mailboxes hold at most `capacity` snapshots.
    pub fn new(seed: Snapshot, capacity: usize) -> (h: Hub)
        requires
            capacity > 0,
        ensures
            h.wf(),
            *h.current() == seed,
            h.mailboxes() == Seq::<MailboxView>::empty(),
            h.capacity() == capacity,
            h.next_tick() == 1,
            !h.ids_exhausted(),
    {
        Hub { store: SnapshotStore::new(seed), channel: FanOut::new(capacity), next_tick: 1 }
    }

    /// A hub seeded with the snapshot of tick 0, with the default backlog bound.
    pub fn start() -> (h: Hub)
        ensures
            h.wf(),
            h.current().tick == 0,
            h.current().consistent(),
            h.mailboxes() == Seq::<MailboxView>::empty(),
            h.capacity() == BACKLOG,
            h.next_tick() == 1,
            !h.ids_exhausted(),
    {
        Hub::new(compute_snapshot(0), BACKLOG)
    }

    /// The current snapshot: what a pull request is answered with.
    pub fn snapshot(&self) -> (r: Arc<Snapshot>)
        ensures
            r == self.current(),
    {
        self.store.get()
    }

    /// The tick that the next producer cycle computes.
    pub fn upcoming_tick(&self) -> (t: u64)
        ensures
            t == self.next_tick(),
    {
        self.next_tick
    }

    /// The number of registered subscribers.
    pub fn subscriber_count(&self) -> (n: usize)
        ensures
            n == self.mailboxes().len(),
    {
        self.channel.subscriber_count()
    }

    /// Commits `next`, the snapshot of the tick the producer is at, to the
    /// store, publishes it to every subscriber and advances the tick counter.
    pub fn commit(&mut self, next: Snapshot)
        requires
            old(self).wf(),
            next.tick == old(self).next_tick(),
        ensures
            committed(*old(self), *final(self), next),
    {
        let shared = Arc::new(next);
        self.store.set(shared.clone());
        self.channel.publish(shared);
        self.next_tick = self.next_tick.saturating_add(1);
    }

    /// One producer cycle: computes the snapshot of the next tick, commits it
    /// and publishes it.
    pub fn produce(&mut self)
        requires
            old(self).wf(),
        ensures
            produced(*old(self), *final(self)),
    {
        let next = compute_snapshot(self.next_tick);
        self.commit(next);
    }

    /// A new subscriber: the current snapshot, to be sent first, and the
    /// subscription that receives everything published after it. `None` once
    /// every subscription identifier has been handed out.
    ///
    /// Reading the store and subscribing happen in this one step, before the
    /// first snapshot is pushed: a commit that lands while that push is under
    /// way then still reaches the subscriber, so nothing is missed and nothing
    /// is repeated. Should the first push fail, the caller releases the
    /// subscription with `disconnect`, which restores the registry.
    pub fn connect(&mut self) -> (r: Option<(Arc<Snapshot>, u64)>)
        requires
            old(self).wf(),
        ensures
            final(self).wf(),
            r matches Some((first, id)) ==> connected(*old(self), *final(self), first, id),
            r is None ==> final(self).mailboxes() == old(self).mailboxes() && final(self).current()
                == old(self).current() && final(self).next_tick() == old(self).next_tick(),
            r is None <==> old(self).ids_exhausted(),
    {
        let first = self.store.get();
        match self.channel.subscribe() {
            Some(id) => Some((first, id)),
            None => None,
        }
    }

    /// Takes the oldest snapshot waiting for subscriber `id`.
    pub fn poll(&mut self, id: u64) -> (d: Delivery)
        requires
            old(self).wf(),
        ensures
            final(self).wf(),
            final(self).current() == old(self).current(),
            final(self).capacity() == old(self).capacity(),
            final(self).next_tick() == old(self).next_tick(),
            !registered(old(self).mailboxes(), id) ==> d is Closed && final(self).mailboxes()
                == old(self).mailboxes(),
            forall|i: int|
                0 <= i < old(self).mailboxes().len() && #[trigger] old(self).mailboxes()[i].id
                    == id ==> d == crate::fanout::take(old(self).mailboxes()[i]).0
                    && final(self).mailboxes() == old(self).mailboxes().update(
                    i,
                    crate::fanout::take(old(self).mailboxes()[i]).1,
                ),
    {
        self.channel.receive(id)
    }

    /// Releases subscriber `id` and its backlog.
    pub fn disconnect(&mut self, id: u64)
        requires
            old(self).wf(),
        ensures
            disconnected(*old(self), *final(self), id),
    {
        self.channel.unsubscribe(id);
    }
}

} // verus!
