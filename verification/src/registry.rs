//! The slot registry: the ordered, fixed collection of slots and the single
//! serialization point for state mutation. Callers must hold exclusive
//! access to a `State` value (a lock or a single-owner task) before calling
//! any `&mut self` method; nothing here spawns or signals a process.

use crate::command::CommandError;
use crate::config::Config;
use crate::server::{Server, ServerData, Status};
use vstd::prelude::*;

verus! {

/// The registry of all supervised slots, in configuration order.
#[derive(Debug)]
pub struct State {
    pub servers: Vec<Server>,
}

impl State {
    /// Registry well-formedness: every slot is well formed and sits at the
    /// index equal to its permanent id.
    pub open spec fn wf(&self) -> bool {
        forall|i: int|
            0 <= i < self.servers@.len() ==> (#[trigger] self.servers@[i]).wf()
                && self.servers@[i].data.id == i
    }

    /// Builds the registry from the startup configuration: one slot per
    /// configured server, ids assigned from configuration order, everything
    /// `Stopped`.
    pub fn new(config: Config) -> (r: Self)
        ensures
            r.wf(),
            r.servers@.len() == config.servers@.len(),
            forall|i: int|
                0 <= i < r.servers@.len() ==> {
                    let s = #[trigger] r.servers@[i];
                    &&& s.data.name@ == config.servers@[i].name@
                    &&& s.data.player_count == 0
                    &&& s.data.status == Status::Stopped
                    &&& s.config.matches(&config.servers@[i])
                },
    {
        let mut servers: Vec<Server> = Vec::new();
        let mut id: usize = 0;
        while id < config.servers.len()
            invariant
                id <= config.servers@.len(),
                servers@.len() == id,
                forall|i: int|
                    0 <= i < id as int ==> (#[trigger] servers@[i]).wf()
                        && servers@[i].data.id == i,
                forall|i: int|
                    0 <= i < id as int ==> {
                        let s = #[trigger] servers@[i];
                        &&& s.data.name@ == config.servers@[i].name@
                        &&& s.data.player_count == 0
                        &&& s.data.status == Status::Stopped
                        &&& s.config.matches(&config.servers@[i])
                    },
            decreases config.servers@.len() - id,
        {
            let cfg = config.servers[id].clone();
            servers.push(Server::new(id, cfg));
            id = id + 1;
        }
        State { servers }
    }

    /// The number of configured slots; fixed for the daemon's lifetime.
    pub fn len(&self) -> (n: usize)
        ensures
            n == self.servers@.len(),
    {
        self.servers.len()
    }

    /// Validates a slot id against the configured range, as the registry's
    /// own access check: out of range fails with `InvalidId`.
    pub fn check_slot(&self, id: usize) -> (r: Result<(), CommandError>)
        ensures
            r is Ok <==> id < self.servers@.len(),
            !(id < self.servers@.len()) ==> r == Err::<(), CommandError>(
                CommandError::InvalidId(id),
            ),
    {
        if id < self.servers.len() {
            Ok(())
        } else {
            Err(CommandError::InvalidId(id))
        }
    }

    /// What it means for a sequence of views to be the snapshot of this
    /// registry: same length, and element `i` is the view of slot `i`.
    pub open spec fn is_snapshot(&self, l: Seq<ServerData>) -> bool {
        &&& l.len() == self.servers@.len()
        &&& forall|i: int| 0 <= i < l.len() ==> (#[trigger] l[i])@ == self.servers@[i].data@
    }

    /// An ordered snapshot of every slot's visible view. Never fails, for
    /// any number of configured slots; with zero slots the sequence is
    /// empty.
    pub fn snapshot(&self) -> (r: Vec<ServerData>)
        ensures
            self.is_snapshot(r@),
    {
        let mut r: Vec<ServerData> = Vec::new();
        let mut i: usize = 0;
        while i < self.servers.len()
            invariant
                i <= self.servers@.len(),
                r@.len() == i,
                forall|j: int| 0 <= j < i as int ==> (#[trigger] r@[j])@ == self.servers@[j].data@,
            decreases self.servers@.len() - i,
        {
            r.push(self.servers[i].data.clone());
            i = i + 1;
        }
        r
    }
}

} // verus!
