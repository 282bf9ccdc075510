//! The single-slot, sequence-numbered fan-out primitive: one producer
//! overwrites a single retained slot, any number of independently paced
//! subscribers each follow it with a private cursor, observing the latest
//! value and silently skipping values they were too slow to consume.

use vstd::prelude::*;
use crate::metrics::HardwareSnapshot;

verus! {

/// The broadcast channel state: one `(sequence, value)` slot plus a closed
/// flag. The ghost `history` records every value ever published, in publish
/// order; the value published with sequence number `s` stands at index
/// `s - 1`, and the slot's current sequence number equals `history.len()`.
pub struct Broadcaster {
    seq: u64,
    slot: Option<HardwareSnapshot>,
    closed: bool,
    history: Ghost<Seq<HardwareSnapshot>>,
}

/// A subscriber's private record of the last sequence number it has consumed.
pub struct Cursor {
    last_seen: u64,
}

/// What one receive attempt resolves to: a newly published value, the
/// terminal closed signal, or nothing new yet (the subscriber must park until
/// the producer publishes or closes).
#[derive(Clone, Copy, PartialEq, Eq, Structural, Debug)]
pub enum RecvOutcome {
    Value(HardwareSnapshot),
    Closed,
    Pending,
}

impl Cursor {
    /// The sequence number this cursor has consumed up to: it has seen every
    /// publish with sequence number at most `position()` that it cared to,
    /// and none after.
    pub closed spec fn position(self) -> nat {
        self.last_seen as nat
    }

    /// The sequence number this cursor has consumed up to.
    pub fn position_now(&self) -> (p: u64)
        ensures
            p as nat == self.position(),
    {
        self.last_seen
    }
}

impl Broadcaster {
    /// Every value ever published on this channel, in publish order.
    pub closed spec fn history(self) -> Seq<HardwareSnapshot> {
        self.history@
    }

    /// Whether the producer has closed the channel.
    pub closed spec fn is_closed(self) -> bool {
        self.closed
    }

    /// The slot's current sequence number: one per publish, starting from 1.
    pub open spec fn current(self) -> nat {
        self.history().len()
    }

    /// What the slot retains right now: nothing before the first publish,
    /// afterwards exactly the most recently published value.
    pub closed spec fn retained(self) -> Option<HardwareSnapshot> {
        self.slot
    }

    /// Internal consistency: the sequence counter counts the publishes, and
    /// the slot holds the last published value (nothing before the first
    /// publish).
    pub closed spec fn wf(self) -> bool {
        &&& self.history@.len() == self.seq as nat
        &&& (self.seq == 0 ==> self.slot is None)
        &&& (self.seq > 0 ==> self.slot == Some(self.history@.last()))
    }

    /// A fresh channel: nothing published, not closed.
    pub fn new() -> (b: Broadcaster)
        ensures
            b.wf(),
            b.history() == Seq::<HardwareSnapshot>::empty(),
            !b.is_closed(),
    {
        Broadcaster { seq: 0, slot: None, closed: false, history: Ghost(Seq::empty()) }
    }

    /// Publish a value: overwrite the slot and advance the sequence, as one
    /// indivisible update from any reader's point of view. Never blocks and
    /// never fails, whether there are many subscribers or none; once the
    /// channel is closed the sequence no longer advances and the publish is
    /// refused.
    pub fn publish(&mut self, v: HardwareSnapshot) -> (accepted: bool)
        requires
            old(self).wf(),
            old(self).current() < u64::MAX,
        ensures
            final(self).wf(),
            final(self).is_closed() == old(self).is_closed(),
            accepted == !old(self).is_closed(),
            accepted ==> final(self).history() == old(self).history().push(v),
            !accepted ==> *final(self) == *old(self),
    {
        if self.closed {
            return false;
        }
        self.seq = self.seq + 1;
        self.slot = Some(v);
        proof {
            self.history@ = self.history@.push(v);
        }
        true
    }

    /// Close the channel: idempotent, retains the history, and makes every
    /// later receive attempt resolve to the closed signal.
    pub fn close(&mut self)
        requires
            old(self).wf(),
        ensures
            final(self).wf(),
            final(self).is_closed(),
            final(self).history() == old(self).history(),
    {
        self.closed = true;
    }

    /// Create a new cursor. Contract choice, kept for every subscriber: the
    /// cursor starts at the slot's current sequence, so a new subscriber
    /// waits for the next publish and never observes a value published before
    /// it subscribed.
    pub fn subscribe(&self) -> (c: Cursor)
        requires
            self.wf(),
        ensures
            c.position() == self.current(),
    {
        Cursor { last_seen: self.seq }
    }

    /// One receive attempt against the current channel state. The closed
    /// signal wins over an unconsumed value: after `close()` a subscriber
    /// never receives another value. Otherwise, if the slot's sequence
    /// exceeds the cursor's, the retained value is taken and the cursor jumps
    /// to the current sequence, silently skipping any values the subscriber
    /// missed; otherwise there is nothing new and the subscriber must wait.
    pub fn try_receive(&self, cursor: &mut Cursor) -> (r: RecvOutcome)
        requires
            self.wf(),
            old(cursor).position() <= self.current(),
        ensures
            old(cursor).position() <= final(cursor).position() <= self.current(),
            self.is_closed() ==> r == RecvOutcome::Closed && *final(cursor) == *old(cursor),
            !self.is_closed() && old(cursor).position() == self.current() ==> (
                r == RecvOutcome::Pending && *final(cursor) == *old(cursor)
            ),
            !self.is_closed() && old(cursor).position() < self.current() ==> (
                r == RecvOutcome::Value(self.history().last())
                && final(cursor).position() == self.current()
            ),
    {
        if self.closed {
            return RecvOutcome::Closed;
        }
        if self.seq > cursor.last_seen {
            cursor.last_seen = self.seq;
            RecvOutcome::Value(self.slot.unwrap())
        } else {
            RecvOutcome::Pending
        }
    }

    /// The sequence number of the most recent publish (zero before the first).
    pub fn seq_now(&self) -> (s: u64)
        requires
            self.wf(),
        ensures
            s as nat == self.current(),
    {
        self.seq
    }

    /// Whether the channel has been closed.
    pub fn closed_now(&self) -> (c: bool)
        ensures
            c == self.is_closed(),
    {
        self.closed
    }
}

/// One channel state follows another when it could have arisen from it by
/// some run of publishes and at most one close: every value the earlier state
/// had published is still on record under its sequence number, and a closed
/// channel stays closed.
pub open spec fn follows(later: Broadcaster, earlier: Broadcaster) -> bool {
    &&& earlier.history().is_prefix_of(later.history())
    &&& (earlier.is_closed() ==> later.is_closed())
}

/// Law: a channel state follows itself.
pub proof fn lemma_follows_refl(b: Broadcaster)
    ensures
        follows(b, b),
{
    assert(b.history() =~= b.history().subrange(0, b.history().len() as int));
}

/// Law: `follows` chains across successive operations.
pub proof fn lemma_follows_trans(b3: Broadcaster, b2: Broadcaster, b1: Broadcaster)
    requires
        follows(b3, b2),
        follows(b2, b1),
    ensures
        follows(b3, b1),
{
    assert(b1.history() =~= b3.history().subrange(0, b1.history().len() as int));
}

/// Law: a publish only extends the record — the new state follows the old.
pub proof fn lemma_publish_follows(later: Broadcaster, earlier: Broadcaster, v: HardwareSnapshot)
    requires
        later.history() == earlier.history().push(v),
        earlier.is_closed() ==> later.is_closed(),
    ensures
        follows(later, earlier),
{
    assert(earlier.history() =~= later.history().subrange(0, earlier.history().len() as int));
}

/// Law (exactness): the value received at sequence number `s` is exactly the
/// value that was published with sequence number `s` — later publishes never
/// alter what an already-assigned sequence number stands for. Together with
/// `try_receive`'s contract (a value is only returned when the slot's
/// sequence strictly exceeds the cursor's, and the cursor then jumps to that
/// sequence), a subscriber's successive received sequence numbers are
/// strictly increasing and each received value equals the value published at
/// its sequence.
pub proof fn lemma_received_value_exact(later: Broadcaster, earlier: Broadcaster, s: nat)
    requires
        follows(later, earlier),
        0 < s <= earlier.current(),
    ensures
        later.history()[s - 1] == earlier.history()[s - 1],
{
    assert(earlier.history()[s - 1] == earlier.history().subrange(
        0,
        earlier.history().len() as int,
    )[s - 1]);
}

/// Law (closure is permanent): once the channel is closed, every state that
/// follows is still closed, so by `try_receive`'s contract every later
/// receive attempt — by a subscriber blocked at closure time or by one
/// arriving afterwards — resolves to the closed signal and never to a value.
pub proof fn lemma_closed_stays(later: Broadcaster, earlier: Broadcaster)
    requires
        follows(later, earlier),
        earlier.is_closed(),
    ensures
        later.is_closed(),
{
}

/// Law (bounded retention): whatever was published and however many
/// subscribers there are, the channel retains at most one value — the most
/// recent one — and nothing before the first publish.
pub proof fn lemma_single_slot(b: Broadcaster)
    requires
        b.wf(),
    ensures
        b.current() == 0 ==> b.retained() is None,
        b.current() > 0 ==> b.retained() == Some(b.history().last()),
{
}

} // verus!
