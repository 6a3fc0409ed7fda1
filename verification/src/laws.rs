//! The laws the supervisor obeys across whole histories of operations.
//!
//! The executable operations pin each single step down in their `ensures`
//! ([`apply_spawn`] and [`apply_stop`] through [`spawn_status`] and
//! [`stop_status`], [`apply_poll`] through [`poll_status`]); the proofs here
//! state what follows for any sequence of such steps applied to one slot.
//!
//! [`apply_spawn`]: crate::dispatch::apply_spawn
//! [`apply_stop`]: crate::dispatch::apply_stop
//! [`apply_poll`]: crate::poller::apply_poll
//! [`spawn_status`]: crate::dispatch::spawn_status
//! [`stop_status`]: crate::dispatch::stop_status
//! [`poll_status`]: crate::poller::poll_status

use crate::dispatch::{spawn_status, stop_status, SpawnOutcome, StopOutcome};
use crate::poller::{poll_status, PollResult};
use crate::server::{machine_edge, startable, Status};
use vstd::prelude::*;

verus! {

/// One slot-affecting occurrence, with the outcome the operating system
/// reported for it.
pub enum SlotEvent {
    /// A start command reached the slot; refused without a spawn unless the
    /// slot was startable.
    Start(SpawnOutcome),
    /// A stop command reached the slot; refused without a termination
    /// request unless the slot was open.
    Stop(StopOutcome),
    /// The poller observed the slot's process.
    Poll(PollResult),
}

/// The status a slot holds after one event — exactly as the executable
/// operations transition it: the dispatcher refuses a start on a
/// non-startable slot and a stop on a non-open slot without touching it, and
/// otherwise the status moves as the operation's own `ensures` state.
pub open spec fn event_step(st: Status, e: SlotEvent) -> Status {
    match e {
        SlotEvent::Start(o) => if startable(st) {
            spawn_status(o)
        } else {
            st
        },
        SlotEvent::Stop(o) => stop_status(st, o),
        SlotEvent::Poll(r) => poll_status(st, r),
    }
}

/// The status a slot holds after a whole sequence of events, applied oldest
/// first.
pub open spec fn trace_status(init: Status, events: Seq<SlotEvent>) -> Status
    decreases events.len(),
{
    if events.len() == 0 {
        init
    } else {
        event_step(trace_status(init, events.drop_last()), events.last())
    }
}

/// Every single event either leaves a slot's status unchanged — a refused
/// command, a refused termination, a process still running — or moves it
/// along an edge of the supervision state machine.
pub proof fn lemma_event_follows_machine(st: Status, e: SlotEvent)
    ensures
        event_step(st, e) == st || machine_edge(st, event_step(st, e)),
{
}

/// For any sequence of operations applied to one slot, the status after
/// each operation matches the state machine: each step either changes
/// nothing or takes an edge. Interleaved operations on other slots cannot
/// interfere, since every operation's frame condition leaves every other
/// slot untouched.
pub proof fn lemma_trace_follows_machine(init: Status, events: Seq<SlotEvent>)
    ensures
        forall|i: int|
            0 <= i < events.len() ==> {
                let pre = trace_status(init, #[trigger] events.take(i));
                let post = trace_status(init, events.take(i + 1));
                post == pre || machine_edge(pre, post)
            },
{
    assert forall|i: int| 0 <= i < events.len() implies {
        let pre = trace_status(init, #[trigger] events.take(i));
        let post = trace_status(init, events.take(i + 1));
        post == pre || machine_edge(pre, post)
    } by {
        assert(events.take(i + 1).drop_last() =~= events.take(i));
        assert(events.take(i + 1).last() == events[i]);
        lemma_event_follows_machine(trace_status(init, events.take(i)), events[i]);
    }
}

} // verus!
