//! The slot model: one supervised process, its externally visible view, and
//! the state machine that every status change must follow.

use crate::config::ServerConfig;
use vstd::prelude::*;

verus! {

/// The lifecycle status of one supervised process.
#[derive(Debug, Clone, Copy, PartialEq, Eq, Structural)]
pub enum Status {
    Open,
    Starting,
    Stopping,
    Stopped,
    Crashed,
}

impl Default for Status {
    /// Every slot starts out `Stopped` when the daemon boots.
    fn default() -> (r: Status)
        ensures
            r == Status::Stopped,
    {
        Status::Stopped
    }
}

impl Status {
    /// The display text of this status.
    pub fn label(&self) -> (r: &'static str)
        ensures
            *self == Status::Open ==> r@ == "Open"@,
            *self == Status::Starting ==> r@ == "Starting"@,
            *self == Status::Stopping ==> r@ == "Stopping"@,
            *self == Status::Stopped ==> r@ == "Stopped"@,
            *self == Status::Crashed ==> r@ == "Crashed"@,
    {
        match self {
            Status::Open => "Open",
            Status::Starting => "Starting",
            Status::Stopping => "Stopping",
            Status::Stopped => "Stopped",
            Status::Crashed => "Crashed",
        }
    }
}

/// A slot may be started exactly when it is `Stopped` or `Crashed`.
pub open spec fn startable(s: Status) -> bool {
    s == Status::Stopped || s == Status::Crashed
}

/// The transition relation of the supervision state machine: every status
/// change a slot ever makes is one of these edges.
pub open spec fn machine_edge(pre: Status, post: Status) -> bool {
    ||| startable(pre) && post == Status::Open  // start succeeded
    ||| startable(pre) && post == Status::Crashed  // start failed to spawn
    ||| pre == Status::Open && post == Status::Stopped  // stopped, or exited cleanly
    ||| pre == Status::Open && post == Status::Crashed  // exited abnormally
}

/// The externally visible, read-only projection of a slot. It never carries
/// the process handle.
#[derive(Debug, PartialEq)]
pub struct ServerData {
    pub id: usize,
    pub name: String,
    pub player_count: u64,
    pub status: Status,
}

/// The mathematical view of a [`ServerData`].
pub struct DataView {
    pub id: int,
    pub name: Seq<char>,
    pub player_count: int,
    pub status: Status,
}

impl View for ServerData {
    type V = DataView;

    open spec fn view(&self) -> DataView {
        DataView {
            id: self.id as int,
            name: self.name@,
            player_count: self.player_count as int,
            status: self.status,
        }
    }
}

impl Clone for ServerData {
    fn clone(&self) -> (r: Self)
        ensures
            r@ == self@,
    {
        ServerData {
            id: self.id,
            name: self.name.clone(),
            player_count: self.player_count,
            status: self.status,
        }
    }
}

impl ServerData {
    /// A fresh view for a newly configured slot: no players, `Stopped`.
    pub fn new(id: usize, name: String) -> (r: Self)
        ensures
            r@ == (DataView { id: id as int, name: name@, player_count: 0, status: Status::Stopped }),
    {
        ServerData { id, name, player_count: 0, status: Status::Stopped }
    }
}

/// One supervised slot: its visible view, its immutable launch description,
/// and the handle of its live process while it has one.
#[derive(Debug)]
pub struct Server {
    pub data: ServerData,
    pub config: ServerConfig,
    /// Identifier of the running child process; `Some` exactly while the
    /// slot is `Open`.
    pub handle: Option<u64>,
}

impl Server {
    /// Slot well-formedness: a process handle is present if and only if the
    /// slot is `Open`.
    pub open spec fn wf(&self) -> bool {
        self.handle is Some <==> self.data.status == Status::Open
    }

    /// Everything a transition must leave alone: identity, display name,
    /// player count and launch description.
    pub open spec fn same_identity(pre: &Server, post: &Server) -> bool {
        &&& post.data.id == pre.data.id
        &&& post.data.name@ == pre.data.name@
        &&& post.data.player_count == pre.data.player_count
        &&& post.config.matches(&pre.config)
    }

    /// A fresh slot for startup: `Stopped`, no process, no players.
    pub fn new(id: usize, config: ServerConfig) -> (r: Self)
        ensures
            r.wf(),
            r.data@ == (DataView {
                id: id as int,
                name: config.name@,
                player_count: 0,
                status: Status::Stopped,
            }),
            r.config.matches(&config),
            r.handle is None,
    {
        let name = config.name.clone();
        Server { data: ServerData::new(id, name), config, handle: None }
    }

    /// Records a successful spawn: the slot becomes `Open` and owns the new
    /// process handle.
    pub fn start_spawned(&mut self, pid: u64)
        requires
            old(self).wf(),
            startable(old(self).data.status),
        ensures
            final(self).wf(),
            Server::same_identity(old(self), final(self)),
            final(self).data.status == Status::Open,
            final(self).handle == Some(pid),
            machine_edge(old(self).data.status, final(self).data.status),
    {
        self.data.status = Status::Open;
        self.handle = Some(pid);
    }

    /// Records a failed spawn: the slot becomes `Crashed` and holds no
    /// handle, so a failed start is visibly different from a stopped slot.
    pub fn start_failed(&mut self)
        requires
            old(self).wf(),
            startable(old(self).data.status),
        ensures
            final(self).wf(),
            Server::same_identity(old(self), final(self)),
            final(self).data.status == Status::Crashed,
            final(self).handle is None,
            machine_edge(old(self).data.status, final(self).data.status),
    {
        self.data.status = Status::Crashed;
        self.handle = None;
    }

    /// Records a delivered termination request: the slot becomes `Stopped`
    /// and gives up its handle.
    pub fn stop_terminated(&mut self)
        requires
            old(self).wf(),
            old(self).data.status == Status::Open,
        ensures
            final(self).wf(),
            Server::same_identity(old(self), final(self)),
            final(self).data.status == Status::Stopped,
            final(self).handle is None,
            machine_edge(old(self).data.status, final(self).data.status),
    {
        self.data.status = Status::Stopped;
        self.handle = None;
    }

    /// Records a detected exit of the slot's process: a successful exit
    /// leaves it `Stopped`, an abnormal one `Crashed`; either way the handle
    /// is gone.
    pub fn exit_detected(&mut self, clean: bool)
        requires
            old(self).wf(),
            old(self).data.status == Status::Open,
        ensures
            final(self).wf(),
            Server::same_identity(old(self), final(self)),
            final(self).data.status == (if clean { Status::Stopped } else { Status::Crashed }),
            final(self).handle is None,
            machine_edge(old(self).data.status, final(self).data.status),
    {
        self.data.status = if clean { Status::Stopped } else { Status::Crashed };
        self.handle = None;
    }
}

} // verus!
