//! The decision logic of the two long-running tasks: the sampling loop's
//! tick (derive a snapshot from a counter reading and publish it, or skip a
//! failed reading) and a connection handler's step (turn one receive attempt
//! into the action the handler takes next).

use vstd::prelude::*;
use crate::channel::{Broadcaster, Cursor, RecvOutcome};
use crate::message::{json_message, spec_json_message};
use crate::metrics::{snapshot, spec_snapshot, CounterSet};

verus! {

/// What a connection handler does after one receive attempt: forward these
/// bytes to its transport, park until the producer wakes it, or terminate
/// normally because the channel closed.
pub enum HandlerStep {
    Forward(Vec<u8>),
    Wait,
    Stop,
}

/// One tick of the sampling loop. A successful counter reading is turned
/// into a snapshot and published; a failed reading (`None`) is skipped — the
/// channel is left untouched and the loop simply waits for the next interval
/// boundary. Never publishes on a closed channel.
pub fn tick(b: &mut Broadcaster, reading: Option<CounterSet>) -> (published: bool)
    requires
        old(b).wf(),
        old(b).current() < u64::MAX,
        reading matches Some(c) ==> c.wf(),
    ensures
        final(b).wf(),
        final(b).is_closed() == old(b).is_closed(),
        published == (reading is Some && !old(b).is_closed()),
        published ==> (reading matches Some(c) && final(b).history() == old(b).history().push(
            spec_snapshot(c),
        )),
        !published ==> *final(b) == *old(b),
{
    match reading {
        Some(c) => {
            let s = snapshot(&c);
            b.publish(s)
        },
        None => false,
    }
}

/// One step of a connection handler: a freshly published value is rendered
/// as its JSON message and forwarded (the cursor jumping to the current
/// sequence), nothing new means the handler parks until woken, and a closed
/// channel ends the handler normally, its cursor untouched.
pub fn connection_step(b: &Broadcaster, cursor: &mut Cursor) -> (step: HandlerStep)
    requires
        b.wf(),
        old(cursor).position() <= b.current(),
    ensures
        old(cursor).position() <= final(cursor).position() <= b.current(),
        b.is_closed() ==> step is Stop && *final(cursor) == *old(cursor),
        !b.is_closed() && old(cursor).position() == b.current() ==> (
            step is Wait && *final(cursor) == *old(cursor)
        ),
        !b.is_closed() && old(cursor).position() < b.current() ==> (
            step matches HandlerStep::Forward(m)
            && m@ == spec_json_message(b.history().last())
            && final(cursor).position() == b.current()
        ),
{
    match b.try_receive(cursor) {
        RecvOutcome::Value(v) => HandlerStep::Forward(json_message(&v)),
        RecvOutcome::Closed => HandlerStep::Stop,
        RecvOutcome::Pending => HandlerStep::Wait,
    }
}

} // verus!
