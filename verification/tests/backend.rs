use app_shell::commands::{get_log_path, handle_message};
use app_shell::paths::{log_dir_for, log_file_in};
use app_shell::startup::{finish_startup, plan_log_dir};
use app_shell::state::AppState;

const ACK: &str = "Message received by main process";

#[test]
fn handle_message_returns_acknowledgement() {
    assert_eq!(handle_message("x"), Ok(ACK.to_string()));
}

#[test]
fn handle_message_ignores_content() {
    assert_eq!(handle_message(""), Ok(ACK.to_string()));
    assert_eq!(handle_message("hello from the frontend"), Ok(ACK.to_string()));
    assert_eq!(handle_message("\u{0}\t\r\n\u{1b}[2J"), Ok(ACK.to_string()));
    assert_eq!(handle_message(ACK), Ok(ACK.to_string()));
}

#[test]
fn log_dir_joins_logs_subdirectory() {
    assert_eq!(log_dir_for("/home/user/.local/share/app"), "/home/user/.local/share/app/logs");
    assert_eq!(log_dir_for(""), "/logs");
}

#[test]
fn log_file_joins_app_log() {
    assert_eq!(log_file_in("/home/user/.local/share/app/logs"), "/home/user/.local/share/app/logs/app.log");
}

#[test]
fn log_path_has_expected_form() {
    let data_dir = "/home/user/.local/share/app";
    let log_dir = log_dir_for(data_dir);
    let log_path = log_file_in(&log_dir);
    assert_eq!(log_path, format!("{}/logs/app.log", data_dir));
}

#[test]
fn plan_log_dir_derives_directory() {
    let planned = plan_log_dir(Ok("/data/app".to_string()));
    assert_eq!(planned, Ok("/data/app/logs".to_string()));
}

#[test]
fn plan_log_dir_reports_missing_data_dir() {
    let planned = plan_log_dir(Err("unknown path".to_string()));
    assert_eq!(planned, Err("Failed to get app data directory: unknown path".to_string()));
}

#[test]
fn finish_startup_publishes_log_path() {
    let state = finish_startup("/data/app/logs", Ok(())).unwrap();
    assert_eq!(state.log_path(), "/data/app/logs/app.log");
}

#[test]
fn finish_startup_reports_denied_creation() {
    let started = finish_startup("/data/app/logs", Err("permission denied".to_string()));
    match started {
        Ok(_) => panic!("startup must fail when the log directory cannot be created"),
        Err(m) => assert_eq!(m, "Failed to create logs directory: permission denied"),
    }
}

#[test]
fn get_log_path_returns_stored_path_verbatim() {
    let state = AppState::new("/data/app/logs/app.log".to_string());
    assert_eq!(get_log_path(&state), Ok("/data/app/logs/app.log".to_string()));
}

#[test]
fn get_log_path_does_not_normalize() {
    // A path with redundant separators and dot segments must come back unchanged.
    let odd = "/data//app/./logs/../logs/app.log";
    let state = AppState::new(odd.to_string());
    assert_eq!(get_log_path(&state), Ok(odd.to_string()));
}

#[test]
fn startup_pipeline_end_to_end() {
    let data_dir = "/home/user/.config/app";
    let log_dir = plan_log_dir(Ok(data_dir.to_string())).unwrap();
    let state = finish_startup(&log_dir, Ok(())).unwrap();
    assert_eq!(get_log_path(&state), Ok(format!("{}/logs/app.log", data_dir)));
}
