//! The fan-out channel: a registry of bounded per-subscriber mailboxes.
//!
//! Publishing appends the snapshot to the mailbox of every registered
//! subscriber. A subscriber whose mailbox already holds `capacity` snapshots
//! when another arrives is disconnected: its backlog is dropped and every
//! later receive on it reports `Closed`. Publishing never waits on, and never
//! fails because of, any subscriber.
use crate::snapshot::Snapshot;
use std::sync::Arc;
use vstd::prelude::*;

verus! {

/// What a subscriber's mailbox holds, as a value.
pub struct MailboxView {
    pub id: u64,
    pub pending: Seq<Arc<Snapshot>>,
    pub closed: bool,
}

/// The outcome of one receive on a subscription.
pub enum Delivery {
    /// The oldest snapshot not yet received.
    Item(Arc<Snapshot>),
    /// Nothing was published since the last receive.
    Empty,
    /// The subscription was disconnected, or is not registered.
    Closed,
}

struct Mailbox {
    id: u64,
    pending: Vec<Arc<Snapshot>>,
    closed: bool,
}

impl Mailbox {
    spec fn view(&self) -> MailboxView {
        MailboxView { id: self.id, pending: self.pending@, closed: self.closed }
    }
}

/// A mailbox as a fresh subscription leaves it.
pub open spec fn fresh_mailbox(id: u64) -> MailboxView {
    MailboxView { id, pending: Seq::empty(), closed: false }
}

/// What one publication of `s` does to a mailbox bounded by `capacity`.
pub open spec fn deliver(b: MailboxView, s: Arc<Snapshot>, capacity: nat) -> MailboxView {
    if b.closed {
        b
    } else if b.pending.len() < capacity {
        MailboxView { pending: b.pending.push(s), ..b }
    } else {
        MailboxView { id: b.id, pending: Seq::empty(), closed: true }
    }
}

/// What the publications of `shots`, in order, do to a mailbox.
pub open spec fn deliver_all(b: MailboxView, shots: Seq<Arc<Snapshot>>, capacity: nat) -> MailboxView
    decreases shots.len(),
{
    if shots.len() == 0 {
        b
    } else {
        deliver(deliver_all(b, shots.drop_last(), capacity), shots.last(), capacity)
    }
}

/// What one receive does to a mailbox: the delivery and the mailbox after it.
pub open spec fn take(b: MailboxView) -> (Delivery, MailboxView) {
    if b.closed {
        (Delivery::Closed, b)
    } else if b.pending.len() == 0 {
        (Delivery::Empty, b)
    } else {
        (Delivery::Item(b.pending[0]), MailboxView { pending: b.pending.drop_first(), ..b })
    }
}

/// The mailboxes after one publication of `s`.
pub open spec fn publish_all(boxes: Seq<MailboxView>, s: Arc<Snapshot>, capacity: nat) -> Seq<
    MailboxView,
> {
    boxes.map_values(|b: MailboxView| deliver(b, s, capacity))
}

/// Whether some mailbox of `boxes` belongs to `id`.
pub open spec fn registered(boxes: Seq<MailboxView>, id: u64) -> bool {
    exists|i: int| 0 <= i < boxes.len() && #[trigger] boxes[i].id == id
}

/// The registry of subscriptions.
pub struct FanOut {
    slots: Vec<Mailbox>,
    capacity: usize,
    next_id: u64,
}

impl FanOut {
    /// The mailboxes, in order of subscription.
    pub closed spec fn view(&self) -> Seq<MailboxView> {
        self.slots@.map_values(|m: Mailbox| m.view())
    }

    /// The bound on each subscriber's backlog.
    pub closed spec fn capacity(&self) -> nat {
        self.capacity as nat
    }

    /// The identifier that the next subscription will get.
    pub closed spec fn next_id(&self) -> u64 {
        self.next_id
    }

    /// Identifiers are unique and below `next_id`; no backlog exceeds the
    /// bound; a disconnected mailbox holds nothing.
    pub open spec fn wf(&self) -> bool {
        &&& self.capacity() > 0
        &&& forall|i: int, j: int|
            0 <= i < self@.len() && 0 <= j < self@.len() && i != j ==> #[trigger] self@[i].id
                != #[trigger] self@[j].id
        &&& forall|i: int| 0 <= i < self@.len() ==> #[trigger] self@[i].id < self.next_id()
        &&& forall|i: int|
            0 <= i < self@.len() ==> #[trigger] self@[i].pending.len() <= self.capacity()
        &&& forall|i: int|
            0 <= i < self@.len() && #[trigger] self@[i].closed ==> self@[i].pending.len() == 0
    }

    /// An empty registry whose mailboxes hold at most `capacity` snapshots.
    pub fn new(capacity: usize) -> (r: FanOut)
        requires
            capacity > 0,
        ensures
            r.wf(),
            r@ == Seq::<MailboxView>::empty(),
            r.capacity() == capacity,
            r.next_id() == 0,
    {
        let r = FanOut { slots: Vec::new(), capacity, next_id: 0 };
        assert(r@ =~= Seq::<MailboxView>::empty());
        r
    }

    /// The number of registered subscriptions.
    pub fn subscriber_count(&self) -> (n: usize)
        ensures
            n == self@.len(),
    {
        self.slots.len()
    }

    /// Registers a new subscription, which receives only what is published
    /// after this call. `None` once every identifier has been handed out.
    pub fn subscribe(&mut self) -> (r: Option<u64>)
        requires
            old(self).wf(),
        ensures
            final(self).wf(),
            final(self).capacity() == old(self).capacity(),
            old(self).next_id() == u64::MAX ==> r is None && final(self)@ == old(self)@,
            old(self).next_id() < u64::MAX ==> r == Some(old(self).next_id()),
            r matches Some(id) ==> !registered(old(self)@, id) && final(self)@ == old(self)@.push(
                fresh_mailbox(id),
            ),
    {
        if self.next_id == u64::MAX {
            return None;
        }
        let id = self.next_id;
        self.slots.push(Mailbox { id, pending: Vec::new(), closed: false });
        self.next_id = id + 1;
        assert(self@ =~= old(self)@.push(fresh_mailbox(id)));
        Some(id)
    }

    /// Delivers `s` to every registered subscription.
    pub fn publish(&mut self, s: Arc<Snapshot>)
        requires
            old(self).wf(),
        ensures
            final(self).wf(),
            final(self).capacity() == old(self).capacity(),
            final(self).next_id() == old(self).next_id(),
            final(self)@ == publish_all(old(self)@, s, old(self).capacity()),
    {
        let n = self.slots.len();
        let mut i: usize = 0;
        while i < n
            invariant
                0 <= i <= n,
                n == self.slots@.len(),
                n == old(self)@.len(),
                self@.len() == n,
                self.capacity == old(self).capacity,
                self.next_id == old(self).next_id,
                forall|k: int|
                    0 <= k < i ==> #[trigger] self@[k] == deliver(
                        old(self)@[k],
                        s,
                        self.capacity as nat,
                    ),
                forall|k: int| i <= k < n ==> #[trigger] self@[k] == old(self)@[k],
            decreases n - i,
        {
            let ghost before = self.slots@;
            let ghost bv = self@;
            let ghost b = old(self)@[i as int];
            assert(self@[i as int] == b);
            assert(before[i as int].view() == b);
            if !self.slots[i].closed {
                if self.slots[i].pending.len() < self.capacity {
                    self.slots[i].pending.push(s.clone());
                    assert(self.slots@[i as int].pending@ =~= b.pending.push(s));
                } else {
                    self.slots[i].pending = Vec::new();
                    self.slots[i].closed = true;
                    assert(self.slots@[i as int].pending@ =~= Seq::<Arc<Snapshot>>::empty());
                }
            }
            proof {
                assert(self.slots@ =~= before.update(i as int, self.slots@[i as int]));
                assert(self@[i as int] == self.slots@[i as int].view());
                assert(self@[i as int] == deliver(b, s, self.capacity as nat));
                assert forall|k: int| 0 <= k < n && k != i implies #[trigger] self@[k] == bv[k] by {
                    assert(self.slots@[k] == before[k]);
                }
            }
            i = i + 1;
        }
        assert(self@ =~= publish_all(old(self)@, s, old(self).capacity()));
    }

    fn position(&self, id: u64) -> (r: Option<usize>)
        requires
            self.wf(),
        ensures
            r matches Some(i) ==> i < self@.len() && self@[i as int].id == id,
            r is None ==> !registered(self@, id),
    {
        let mut i: usize = 0;
        while i < self.slots.len()
            invariant
                0 <= i <= self@.len(),
                forall|k: int| 0 <= k < i ==> #[trigger] self@[k].id != id,
            decreases self@.len() - i,
        {
            if self.slots[i].id == id {
                return Some(i);
            }
            i = i + 1;
        }
        None
    }

    /// Takes the oldest pending snapshot of subscription `id`.
    pub fn receive(&mut self, id: u64) -> (d: Delivery)
        requires
            old(self).wf(),
        ensures
            final(self).wf(),
            final(self).capacity() == old(self).capacity(),
            final(self).next_id() == old(self).next_id(),
            !registered(old(self)@, id) ==> d is Closed && final(self)@ == old(self)@,
            forall|i: int|
                0 <= i < old(self)@.len() && #[trigger] old(self)@[i].id == id ==> d == take(
                    old(self)@[i],
                ).0 && final(self)@ == old(self)@.update(i, take(old(self)@[i]).1),
    {
        match self.position(id) {
            None => Delivery::Closed,
            Some(i) => {
                assert(forall|k: int|
                    0 <= k < old(self)@.len() && #[trigger] old(self)@[k].id == id ==> k == i);
                if self.slots[i].closed {
                    Delivery::Closed
                } else if self.slots[i].pending.len() == 0 {
                    Delivery::Empty
                } else {
                    let s = self.slots[i].pending.remove(0);
                    assert(self@ =~= old(self)@.update(i as int, take(old(self)@[i as int]).1));
                    Delivery::Item(s)
                }
            },
        }
    }

    /// Removes subscription `id` and drops its backlog.
    pub fn unsubscribe(&mut self, id: u64)
        requires
            old(self).wf(),
        ensures
            final(self).wf(),
            final(self).capacity() == old(self).capacity(),
            final(self).next_id() == old(self).next_id(),
            !registered(final(self)@, id),
            !registered(old(self)@, id) ==> final(self)@ == old(self)@,
            forall|i: int|
                0 <= i < old(self)@.len() && #[trigger] old(self)@[i].id == id ==> final(self)@
                    == old(self)@.remove(i),
    {
        match self.position(id) {
            None => {},
            Some(i) => {
                assert(forall|k: int|
                    0 <= k < old(self)@.len() && #[trigger] old(self)@[k].id == id ==> k == i);
                self.slots.remove(i);
                assert(self@ =~= old(self)@.remove(i as int));
            },
        }
    }
}

} // verus!
