use minelib::command::{Command, CommandError, CommandResponse};
use minelib::config::{check_version, Config, ServerConfig, VersionCheck, CONFIG_VERSION};
use minelib::dispatch::{prepare_command, Prepared};
use minelib::registry::State;
use minelib::server::Status;

fn cfg(name: &str) -> ServerConfig {
    ServerConfig {
        name: name.to_string(),
        jar: "server.jar".to_string(),
        dir: "/srv".to_string(),
        args: vec![],
    }
}

#[test]
fn new_registry_assigns_ids_in_configuration_order() {
    let st = State::new(Config { version: 1, servers: vec![cfg("one"), cfg("two")] });
    assert_eq!(st.len(), 2);
    assert_eq!(st.servers[0].data.id, 0);
    assert_eq!(st.servers[1].data.id, 1);
    assert_eq!(st.servers[0].data.name, "one");
    assert_eq!(st.servers[1].data.name, "two");
    assert_eq!(st.servers[0].data.player_count, 0);
    assert_eq!(st.servers[0].data.status, Status::Stopped);
    assert_eq!(st.servers[1].data.status, Status::Stopped);
    assert_eq!(st.servers[0].handle, None);
}

#[test]
fn snapshot_lists_every_slot_in_order() {
    let st = State::new(Config { version: 1, servers: vec![cfg("one"), cfg("two")] });
    let snap = st.snapshot();
    assert_eq!(snap.len(), 2);
    assert_eq!(snap[0].id, 0);
    assert_eq!(snap[0].name, "one");
    assert_eq!(snap[1].id, 1);
    assert_eq!(snap[1].name, "two");
}

#[test]
fn get_servers_never_fails_even_with_zero_slots() {
    let st = State::new(Config { version: 1, servers: vec![] });
    assert_eq!(st.len(), 0);
    let p = prepare_command(&st, Command::GetServers);
    match p {
        Prepared::Ready(CommandResponse::UpdateServers(l)) => assert!(l.is_empty()),
        other => panic!("unexpected decision: {:?}", other),
    }
}

#[test]
fn get_servers_returns_full_snapshot() {
    let st = State::new(Config { version: 1, servers: vec![cfg("one"), cfg("two")] });
    let p = prepare_command(&st, Command::GetServers);
    match p {
        Prepared::Ready(CommandResponse::UpdateServers(l)) => {
            assert_eq!(l.len(), 2);
            assert_eq!(l[0].name, "one");
            assert_eq!(l[1].name, "two");
        }
        other => panic!("unexpected decision: {:?}", other),
    }
}

#[test]
fn check_slot_rejects_out_of_range_id() {
    let st = State::new(Config { version: 1, servers: vec![cfg("one")] });
    assert_eq!(st.check_slot(0), Ok(()));
    assert_eq!(st.check_slot(1), Err(CommandError::InvalidId(1)));
    assert_eq!(st.check_slot(usize::MAX), Err(CommandError::InvalidId(usize::MAX)));
}

#[test]
fn version_check_classifies_against_supported_version() {
    assert_eq!(check_version(CONFIG_VERSION), VersionCheck::Current);
    assert_eq!(check_version(CONFIG_VERSION + 1), VersionCheck::TooNew);
    assert_eq!(check_version(u64::MAX), VersionCheck::TooNew);
    assert_eq!(check_version(0), VersionCheck::Outdated);
}
