//! The startup sequence: from the platform's application-data directory to
//! the published state.
//!
//! The filesystem work — resolving the platform directory and creating the
//! log directory — is the host's; each step hands its outcome to this module,
//! which decides what follows: the derived paths on success, a descriptive
//! error and an aborted startup on failure. No state exists unless both
//! steps succeeded, so no command can run after a failed startup.

use vstd::prelude::*;
use crate::paths::{log_dir_for, log_dir_spec, log_file_in, log_file_spec};
use crate::state::AppState;

verus! {

/// First startup step. Takes the outcome of resolving the platform's
/// application-data directory and, on success, derives the log directory to
/// create; on failure, the descriptive error that aborts startup.
pub fn plan_log_dir(data_dir: Result<String, String>) -> (r: Result<String, String>)
    ensures
        match data_dir {
            Ok(d) => r matches Ok(p) && p@ == log_dir_spec(d@),
            Err(e) => r matches Err(m) && m@ == "Failed to get app data directory: "@ + e@,
        },
{
    match data_dir {
        Ok(d) => Ok(log_dir_for(d.as_str())),
        Err(e) => {
            let mut m = "Failed to get app data directory: ".to_owned();
            m.append(e.as_str());
            Err(m)
        },
    }
}

/// Second startup step. Takes the outcome of creating the log directory and,
/// on success, publishes the state holding the log file path inside it; on
/// failure, the descriptive error that aborts startup. Startup succeeds if
/// and only if the directory was created.
pub fn finish_startup(log_dir: &str, created: Result<(), String>) -> (r: Result<AppState, String>)
    ensures
        match created {
            Ok(_) => r matches Ok(s) && s.log_path_view() == log_file_spec(log_dir@),
            Err(e) => r matches Err(m) && m@ == "Failed to create logs directory: "@ + e@,
        },
{
    match created {
        Ok(_) => Ok(AppState::new(log_file_in(log_dir))),
        Err(e) => {
            let mut m = "Failed to create logs directory: ".to_owned();
            m.append(e.as_str());
            Err(m)
        },
    }
}

} // verus!
