use minelib::command::CommandResponse;
use minelib::config::{Config, ServerConfig};
use minelib::dispatch::{apply_spawn, SpawnOutcome};
use minelib::poller::{apply_poll, poll_target, PollResult};
use minelib::registry::State;
use minelib::server::Status;

fn open_one_slot() -> State {
    let cfg = ServerConfig {
        name: "Survival".to_string(),
        jar: "server.jar".to_string(),
        dir: "/srv".to_string(),
        args: vec![],
    };
    let mut st = State::new(Config { version: 1, servers: vec![cfg] });
    apply_spawn(&mut st, 0, SpawnOutcome::Spawned(31337));
    st
}

#[test]
fn poll_target_names_the_process_of_an_open_slot() {
    let st = open_one_slot();
    assert_eq!(poll_target(&st, 0), Some(31337));
}

#[test]
fn poll_target_is_empty_for_a_slot_that_is_not_open() {
    let cfg = ServerConfig {
        name: "s".to_string(),
        jar: "s.jar".to_string(),
        dir: "/srv".to_string(),
        args: vec![],
    };
    let st = State::new(Config { version: 1, servers: vec![cfg] });
    assert_eq!(poll_target(&st, 0), None);
}

#[test]
fn clean_exit_stops_slot_with_exactly_one_event() {
    let mut st = open_one_slot();
    let ev = apply_poll(&mut st, 0, PollResult::ExitedClean);
    assert_eq!(st.servers[0].data.status, Status::Stopped);
    assert_eq!(st.servers[0].handle, None);
    match ev {
        Some(CommandResponse::UpdateServer(id, d)) => {
            assert_eq!(id, 0);
            assert_eq!(d.status, Status::Stopped);
        }
        other => panic!("unexpected event: {:?}", other),
    }
    // the next tick sees a slot that is no longer open: no second event
    let ev2 = apply_poll(&mut st, 0, PollResult::ExitedClean);
    assert_eq!(ev2, None);
    assert_eq!(st.servers[0].data.status, Status::Stopped);
}

#[test]
fn abnormal_exit_crashes_slot_with_exactly_one_event() {
    let mut st = open_one_slot();
    let ev = apply_poll(&mut st, 0, PollResult::ExitedAbnormal);
    assert_eq!(st.servers[0].data.status, Status::Crashed);
    assert_eq!(st.servers[0].handle, None);
    match ev {
        Some(CommandResponse::UpdateServer(id, d)) => {
            assert_eq!(id, 0);
            assert_eq!(d.status, Status::Crashed);
        }
        other => panic!("unexpected event: {:?}", other),
    }
    let ev2 = apply_poll(&mut st, 0, PollResult::ExitedAbnormal);
    assert_eq!(ev2, None);
    assert_eq!(st.servers[0].data.status, Status::Crashed);
}

#[test]
fn update_status_reports_detected_transitions() {
    let mut st = open_one_slot();
    let mut slot = st.servers.remove(0);
    assert!(!slot.update_status(PollResult::StillRunning));
    assert_eq!(slot.data.status, Status::Open);
    assert!(slot.update_status(PollResult::ExitedAbnormal));
    assert_eq!(slot.data.status, Status::Crashed);
    assert_eq!(slot.handle, None);
    // once the slot has left Open, nothing more is detected
    assert!(!slot.update_status(PollResult::ExitedClean));
    assert_eq!(slot.data.status, Status::Crashed);
}

#[test]
fn still_running_process_changes_nothing() {
    let mut st = open_one_slot();
    let ev = apply_poll(&mut st, 0, PollResult::StillRunning);
    assert_eq!(ev, None);
    assert_eq!(st.servers[0].data.status, Status::Open);
    assert_eq!(st.servers[0].handle, Some(31337));
}
