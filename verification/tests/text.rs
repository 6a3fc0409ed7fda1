use minelib::command::CommandError;
use minelib::config::ServerConfig;
use minelib::launch::launch_invocation;
use minelib::server::Status;
use minelib::text::{format_i32, format_u64, format_usize};

#[test]
fn unsigned_values_format_in_decimal() {
    assert_eq!(format_u64(0), "0");
    assert_eq!(format_u64(7), "7");
    assert_eq!(format_u64(42), "42");
    assert_eq!(format_u64(1234567890), "1234567890");
    assert_eq!(format_u64(u64::MAX), "18446744073709551615");
    assert_eq!(format_usize(500), "500");
}

#[test]
fn signed_values_format_with_their_sign() {
    assert_eq!(format_i32(0), "0");
    assert_eq!(format_i32(13), "13");
    assert_eq!(format_i32(-1), "-1");
    assert_eq!(format_i32(-2048), "-2048");
    assert_eq!(format_i32(i32::MIN), "-2147483648");
    assert_eq!(format_i32(i32::MAX), "2147483647");
}

#[test]
fn error_messages_match_their_variant() {
    assert_eq!(CommandError::MutexLockFail.message(), "failed to lock mutex");
    assert_eq!(CommandError::SystemError(-2).message(), "system error: -2");
    assert_eq!(CommandError::SystemError(13).message(), "system error: 13");
    assert_eq!(CommandError::NonExistentServer(5).message(), "server id 5 doesn't exist");
    assert_eq!(CommandError::UnknownSystemError.message(), "unknown system error");
    assert_eq!(CommandError::InvalidId(9).message(), "invalid server id 9");
    assert_eq!(CommandError::AlreadyRunning.message(), "server is already running");
    assert_eq!(CommandError::NotRunning.message(), "server is not running");
}

#[test]
fn status_labels_match_their_variant() {
    assert_eq!(Status::Open.label(), "Open");
    assert_eq!(Status::Starting.label(), "Starting");
    assert_eq!(Status::Stopping.label(), "Stopping");
    assert_eq!(Status::Stopped.label(), "Stopped");
    assert_eq!(Status::Crashed.label(), "Crashed");
}

#[test]
fn default_status_is_stopped() {
    assert_eq!(Status::default(), Status::Stopped);
}

#[test]
fn launch_invocation_assembles_the_java_command_line() {
    let cfg = ServerConfig {
        name: "Survival".to_string(),
        jar: "server.jar".to_string(),
        dir: "/srv/survival".to_string(),
        args: vec!["-Xmx2G".to_string(), "-Xms1G".to_string()],
    };
    let inv = launch_invocation(&cfg);
    assert_eq!(inv.program, "java");
    assert_eq!(inv.dir, "/srv/survival");
    assert_eq!(
        inv.args,
        vec![
            "-jar".to_string(),
            "/srv/survival/server.jar".to_string(),
            "nogui".to_string(),
            "-Xmx2G".to_string(),
            "-Xms1G".to_string(),
        ]
    );
}
