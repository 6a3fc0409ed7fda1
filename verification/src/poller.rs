//! The status poller: reconciling registry status against detected process
//! exits.
//!
//! The periodic loop and the non-blocking liveness check of a child process
//! live outside this crate. On every tick the loop asks [`poll_target`]
//! which process, if any, a slot has to check, performs the check without
//! blocking, and hands the result to [`apply_poll`], which makes the status
//! transition and says whether an `UpdateServer` event is owed — exactly one
//! per detected exit, none while the process keeps running or once the slot
//! has left `Open`.

use crate::command::CommandResponse;
use crate::registry::State;
use crate::server::{machine_edge, Server, Status};
use vstd::prelude::*;

verus! {

/// What the non-blocking liveness check of a slot's process reported.
#[derive(Debug, Clone, Copy, PartialEq, Eq, Structural)]
pub enum PollResult {
    /// The process has not exited yet.
    StillRunning,
    /// The process exited with a success code.
    ExitedClean,
    /// The process exited with a non-zero code or on a signal.
    ExitedAbnormal,
}

/// The status a slot holds after one poll observation.
pub open spec fn poll_status(pre: Status, r: PollResult) -> Status {
    if pre == Status::Open {
        match r {
            PollResult::StillRunning => pre,
            PollResult::ExitedClean => Status::Stopped,
            PollResult::ExitedAbnormal => Status::Crashed,
        }
    } else {
        pre
    }
}

/// Whether one poll observation emits an event: only a detected exit of an
/// `Open` slot does.
pub open spec fn poll_emits(pre: Status, r: PollResult) -> bool {
    pre == Status::Open && !(r is StillRunning)
}

impl Server {
    /// Applies one poll observation to this slot alone and reports whether a
    /// transition was detected: a detected exit of an open slot moves it to
    /// `Stopped` or `Crashed` and drops the handle; anything else changes
    /// nothing.
    pub fn update_status(&mut self, r: PollResult) -> (changed: bool)
        requires
            old(self).wf(),
        ensures
            final(self).wf(),
            final(self).data.status == poll_status(old(self).data.status, r),
            changed == poll_emits(old(self).data.status, r),
            changed ==> Server::same_identity(old(self), final(self))
                && final(self).handle is None
                && machine_edge(Status::Open, final(self).data.status),
            !changed ==> *final(self) == *old(self),
    {
        let open_now = match self.data.status {
            Status::Open => true,
            _ => false,
        };
        let exited = match r {
            PollResult::StillRunning => false,
            _ => true,
        };
        if open_now && exited {
            let clean = match r {
                PollResult::ExitedClean => true,
                _ => false,
            };
            self.exit_detected(clean);
            true
        } else {
            false
        }
    }
}

/// The process the poller has to check for a slot: its handle while the slot
/// is `Open`, nothing otherwise.
pub fn poll_target(state: &State, id: usize) -> (t: Option<u64>)
    requires
        state.wf(),
        id < state.servers@.len(),
    ensures
        t is Some <==> state.servers@[id as int].data.status == Status::Open,
        t == state.servers@[id as int].handle,
{
    match state.servers[id].handle {
        Some(pid) => Some(pid),
        None => None,
    }
}

/// Records one poll observation for one slot.
///
/// A detected exit of an `Open` slot transitions it — success to `Stopped`,
/// abnormal to `Crashed` — clears the handle, and yields exactly one
/// `UpdateServer` event carrying the slot's new view. A still-running
/// process, or a slot that is not `Open`, changes nothing and yields no
/// event. Slots other than `id` are untouched.
pub fn apply_poll(state: &mut State, id: usize, r: PollResult) -> (ev: Option<CommandResponse>)
    requires
        old(state).wf(),
        id < old(state).servers@.len(),
    ensures
        final(state).wf(),
        final(state).servers@.len() == old(state).servers@.len(),
        forall|j: int|
            0 <= j < final(state).servers@.len() && j != id as int
                ==> final(state).servers@[j] == old(state).servers@[j],
        final(state).servers@[id as int].data.status == poll_status(
            old(state).servers@[id as int].data.status,
            r,
        ),
        poll_emits(old(state).servers@[id as int].data.status, r) ==> {
            &&& Server::same_identity(
                &old(state).servers@[id as int],
                &final(state).servers@[id as int],
            )
            &&& final(state).servers@[id as int].handle is None
            &&& machine_edge(Status::Open, final(state).servers@[id as int].data.status)
            &&& ev matches Some(e) && e matches CommandResponse::UpdateServer(i, d) && i == id
                && d@ == final(state).servers@[id as int].data@
        },
        !poll_emits(old(state).servers@[id as int].data.status, r) ==> {
            &&& final(state).servers@[id as int] == old(state).servers@[id as int]
            &&& ev is None
        },
{
    let mut slot = state.servers.remove(id);
    let changed = slot.update_status(r);
    let ev = if changed {
        let d = slot.data.clone();
        Some(CommandResponse::UpdateServer(id, d))
    } else {
        None
    };
    state.servers.insert(id, slot);
    assert(state.servers@ =~= old(state).servers@.update(id as int, state.servers@[id as int]));
    ev
}

/// A detected exit is reported exactly once, not once per tick.
///
/// Once one poll observation has emitted an event for a slot, the slot is no
/// longer `Open` — a clean exit leaves it `Stopped`, an abnormal one
/// `Crashed` — so no later observation of the same slot emits another event
/// until the slot is started again.
pub proof fn lemma_poll_emits_once(pre: Status, r1: PollResult, r2: PollResult)
    requires
        poll_emits(pre, r1),
    ensures
        poll_status(pre, r1) == if r1 is ExitedClean {
            Status::Stopped
        } else {
            Status::Crashed
        },
        !poll_emits(poll_status(pre, r1), r2),
{
}

} // verus!
