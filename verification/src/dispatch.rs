//! The command dispatcher: the single entry point that turns an inbound
//! client command into a response and a state change.
//!
//! Spawning and signalling processes happens outside this crate, so a
//! state-changing command is dispatched in two steps under one period of
//! exclusive registry access: [`prepare_command`] decides, from the current
//! state alone, whether the command is answered immediately or needs an
//! operating-system action; the caller performs that action and hands its
//! outcome to [`apply_spawn`] or [`apply_stop`], which make the transition
//! and build the response. Every dispatched command yields exactly one
//! response, success or typed error.

use crate::command::{Command, CommandError, CommandResponse};
use crate::registry::State;
use crate::server::{machine_edge, startable, Server, Status};
use vstd::prelude::*;

verus! {

/// The outcome of the process spawn a `StartServer` command asked for:
/// either the new process's identifier, or the native error code of the
/// failure if one was available.
#[derive(Debug, Clone, Copy, PartialEq, Eq, Structural)]
pub enum SpawnOutcome {
    Spawned(u64),
    Failed(i32),
    FailedUnknown,
}

/// The outcome of the graceful termination request a `StopServer` command
/// asked for.
#[derive(Debug, Clone, Copy, PartialEq, Eq, Structural)]
pub enum StopOutcome {
    Terminated,
    TermFailed(i32),
    TermFailedUnknown,
}

/// What the dispatcher decided about a command: either the response is
/// already determined, or an operating-system action is needed first.
#[derive(Debug, PartialEq)]
pub enum Prepared {
    /// The response is complete; no process interaction is needed.
    Ready(CommandResponse),
    /// The caller must try to spawn the process of the given slot, then
    /// report the outcome to [`apply_spawn`].
    Spawn(usize),
    /// The caller must request graceful termination of the given process,
    /// then report the outcome to [`apply_stop`].
    Terminate(usize, u64),
}

/// The status a startable slot holds after a spawn attempt: `Open` on
/// success, `Crashed` on failure.
pub open spec fn spawn_status(o: SpawnOutcome) -> Status {
    if o is Spawned {
        Status::Open
    } else {
        Status::Crashed
    }
}

/// The status a slot holds after a stop attempt: `Stopped` once the
/// termination request was delivered to an open slot, unchanged otherwise.
pub open spec fn stop_status(pre: Status, o: StopOutcome) -> Status {
    if pre == Status::Open && o is Terminated {
        Status::Stopped
    } else {
        pre
    }
}

/// Exactly which decision [`prepare_command`] owes for each command against
/// the current registry state.
pub open spec fn prepared_ok(s: &State, cmd: Command, p: Prepared) -> bool {
    match cmd {
        Command::GetServers => {
            &&& p matches Prepared::Ready(r)
            &&& r matches CommandResponse::UpdateServers(l) && s.is_snapshot(l@)
        },
        Command::StartServer(id) => {
            if id >= s.servers@.len() {
                p == Prepared::Ready(CommandResponse::Error(CommandError::NonExistentServer(id)))
            } else if startable(s.servers@[id as int].data.status) {
                p == Prepared::Spawn(id)
            } else {
                p == Prepared::Ready(CommandResponse::Error(CommandError::AlreadyRunning))
            }
        },
        Command::StopServer(id) => {
            if id >= s.servers@.len() {
                p == Prepared::Ready(CommandResponse::Error(CommandError::NonExistentServer(id)))
            } else if s.servers@[id as int].data.status == Status::Open {
                &&& p matches Prepared::Terminate(i, pid)
                &&& i == id
                &&& s.servers@[id as int].handle == Some(pid)
            } else {
                p == Prepared::Ready(CommandResponse::Error(CommandError::NotRunning))
            }
        },
    }
}

/// Decides a command against the current state without changing anything.
///
/// `GetServers` always succeeds, with the full ordered snapshot. A start on
/// a slot that is not startable is refused with `AlreadyRunning`, a stop on
/// a slot that is not running with `NotRunning`, and either command on an id
/// outside the configured range with `NonExistentServer`; in all three cases
/// the registry is untouched, since this function only reads it.
pub fn prepare_command(state: &State, cmd: Command) -> (p: Prepared)
    requires
        state.wf(),
    ensures
        prepared_ok(state, cmd, p),
{
    match cmd {
        Command::GetServers => Prepared::Ready(
            CommandResponse::UpdateServers(state.snapshot()),
        ),
        Command::StartServer(id) => {
            match state.check_slot(id) {
                Err(_) => Prepared::Ready(
                    CommandResponse::Error(CommandError::NonExistentServer(id)),
                ),
                Ok(_) => {
                    match state.servers[id].data.status {
                        Status::Stopped | Status::Crashed => Prepared::Spawn(id),
                        _ => Prepared::Ready(
                            CommandResponse::Error(CommandError::AlreadyRunning),
                        ),
                    }
                },
            }
        },
        Command::StopServer(id) => {
            match state.check_slot(id) {
                Err(_) => Prepared::Ready(
                    CommandResponse::Error(CommandError::NonExistentServer(id)),
                ),
                Ok(_) => {
                    match state.servers[id].handle {
                        Some(pid) => Prepared::Terminate(id, pid),
                        None => Prepared::Ready(
                            CommandResponse::Error(CommandError::NotRunning),
                        ),
                    }
                },
            }
        },
    }
}

/// Records the outcome of the spawn that [`prepare_command`] asked for, and
/// builds the response.
///
/// On success the slot becomes `Open` and owns the handle, and the response
/// is the slot's updated view. On a spawn failure the slot still transitions,
/// to `Crashed`, even though the command reports an error: a crashed slot
/// must be visibly different from a stopped one. Slots other than `id` are
/// untouched.
pub fn apply_spawn(state: &mut State, id: usize, outcome: SpawnOutcome) -> (r: CommandResponse)
    requires
        old(state).wf(),
        id < old(state).servers@.len(),
        startable(old(state).servers@[id as int].data.status),
    ensures
        final(state).wf(),
        final(state).servers@.len() == old(state).servers@.len(),
        forall|j: int|
            0 <= j < final(state).servers@.len() && j != id as int
                ==> final(state).servers@[j] == old(state).servers@[j],
        Server::same_identity(&old(state).servers@[id as int], &final(state).servers@[id as int]),
        machine_edge(
            old(state).servers@[id as int].data.status,
            final(state).servers@[id as int].data.status,
        ),
        final(state).servers@[id as int].data.status == spawn_status(outcome),
        match outcome {
            SpawnOutcome::Spawned(pid) => {
                &&& final(state).servers@[id as int].data.status == Status::Open
                &&& final(state).servers@[id as int].handle == Some(pid)
                &&& r matches CommandResponse::UpdateServer(i, d) && i == id
                    && d@ == final(state).servers@[id as int].data@
            },
            SpawnOutcome::Failed(c) => {
                &&& final(state).servers@[id as int].data.status == Status::Crashed
                &&& final(state).servers@[id as int].handle is None
                &&& r == CommandResponse::Error(CommandError::SystemError(c))
            },
            SpawnOutcome::FailedUnknown => {
                &&& final(state).servers@[id as int].data.status == Status::Crashed
                &&& final(state).servers@[id as int].handle is None
                &&& r == CommandResponse::Error(CommandError::UnknownSystemError)
            },
        },
{
    let mut slot = state.servers.remove(id);
    let r = match outcome {
        SpawnOutcome::Spawned(pid) => {
            slot.start_spawned(pid);
            let d = slot.data.clone();
            CommandResponse::UpdateServer(id, d)
        },
        SpawnOutcome::Failed(c) => {
            slot.start_failed();
            CommandResponse::Error(CommandError::SystemError(c))
        },
        SpawnOutcome::FailedUnknown => {
            slot.start_failed();
            CommandResponse::Error(CommandError::UnknownSystemError)
        },
    };
    state.servers.insert(id, slot);
    assert(state.servers@ =~= old(state).servers@.update(id as int, state.servers@[id as int]));
    r
}

/// Records the outcome of the termination request that [`prepare_command`]
/// asked for, and builds the response.
///
/// If the slot is no longer `Open` — the poller detected the exit first —
/// the command fails safely with `NotRunning` and nothing changes. On a
/// delivered request the slot becomes `Stopped` and gives up its handle. If
/// the operating system refused the request the slot keeps running and the
/// error is reported. Slots other than `id` are untouched.
pub fn apply_stop(state: &mut State, id: usize, outcome: StopOutcome) -> (r: CommandResponse)
    requires
        old(state).wf(),
        id < old(state).servers@.len(),
    ensures
        final(state).wf(),
        final(state).servers@.len() == old(state).servers@.len(),
        forall|j: int|
            0 <= j < final(state).servers@.len() && j != id as int
                ==> final(state).servers@[j] == old(state).servers@[j],
        final(state).servers@[id as int].data.status == stop_status(
            old(state).servers@[id as int].data.status,
            outcome,
        ),
        old(state).servers@[id as int].data.status != Status::Open ==> {
            &&& final(state).servers@[id as int] == old(state).servers@[id as int]
            &&& r == CommandResponse::Error(CommandError::NotRunning)
        },
        old(state).servers@[id as int].data.status == Status::Open ==> match outcome {
            StopOutcome::Terminated => {
                &&& Server::same_identity(
                    &old(state).servers@[id as int],
                    &final(state).servers@[id as int],
                )
                &&& final(state).servers@[id as int].data.status == Status::Stopped
                &&& final(state).servers@[id as int].handle is None
                &&& machine_edge(Status::Open, final(state).servers@[id as int].data.status)
                &&& r matches CommandResponse::UpdateServer(i, d) && i == id
                    && d@ == final(state).servers@[id as int].data@
            },
            StopOutcome::TermFailed(c) => {
                &&& final(state).servers@[id as int] == old(state).servers@[id as int]
                &&& r == CommandResponse::Error(CommandError::SystemError(c))
            },
            StopOutcome::TermFailedUnknown => {
                &&& final(state).servers@[id as int] == old(state).servers@[id as int]
                &&& r == CommandResponse::Error(CommandError::UnknownSystemError)
            },
        },
{
    let open_now = match state.servers[id].data.status {
        Status::Open => true,
        _ => false,
    };
    if !open_now {
        return CommandResponse::Error(CommandError::NotRunning);
    }
    match outcome {
        StopOutcome::Terminated => {
            let mut slot = state.servers.remove(id);
            slot.stop_terminated();
            let d = slot.data.clone();
            state.servers.insert(id, slot);
            assert(state.servers@ =~= old(state).servers@.update(
                id as int,
                state.servers@[id as int],
            ));
            CommandResponse::UpdateServer(id, d)
        },
        StopOutcome::TermFailed(c) => CommandResponse::Error(CommandError::SystemError(c)),
        StopOutcome::TermFailedUnknown => CommandResponse::Error(CommandError::UnknownSystemError),
    }
}

/// Whether a response is a state-change event that the dispatcher must also
/// publish to the broadcast hub, so every other connected client learns of
/// the change.
pub fn should_broadcast(r: &CommandResponse) -> (b: bool)
    ensures
        b <==> r is UpdateServer,
{
    match r {
        CommandResponse::UpdateServer(_, _) => true,
        _ => false,
    }
}

/// The dispatcher's decision is a function of the registry state alone, so
/// repeating a start or stop command without an intervening state change —
/// in particular, repeating one that was refused, since a refusal changes
/// nothing — always yields the same decision and the same typed failure.
pub proof fn lemma_decision_deterministic(s: &State, cmd: Command, p1: Prepared, p2: Prepared)
    requires
        prepared_ok(s, cmd, p1),
        prepared_ok(s, cmd, p2),
        !(cmd is GetServers),
    ensures
        p1 == p2,
{
}

} // verus!
