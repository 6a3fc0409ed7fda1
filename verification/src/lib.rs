//! Supervisor core for a fixed set of long-running game-server processes.
//!
//! The crate models each supervised process as a slot with a status, drives
//! every status change through one small state machine, dispatches client
//! commands against the slot registry, reconciles slot status against
//! detected process exits, and fans state-change events out to subscribers.
//! All process spawning, signalling and network I/O happens outside this
//! crate; the functions here take the outcomes of those operations as plain
//! values and are verified for every possible outcome.

pub mod command;
pub mod config;
pub mod dispatch;
pub mod hub;
pub mod laws;
pub mod launch;
pub mod poller;
pub mod registry;
pub mod server;
pub mod text;

pub use command::{Command, CommandError, CommandResponse};
pub use config::{Config, ServerConfig};
pub use dispatch::{Prepared, SpawnOutcome, StopOutcome};
pub use hub::Hub;
pub use launch::Invocation;
pub use poller::PollResult;
pub use registry::State;
pub use server::{Server, ServerData, Status};
