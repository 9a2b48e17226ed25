//! The remote command handlers whose results this library can state.
//!
//! The host framework dispatches each command; the handlers here compute the
//! reply. The restart command has no computation to state — it only asks the
//! host process to terminate and relaunch — so it lives with the framework
//! glue, outside the library.

use vstd::prelude::*;
use crate::state::AppState;

verus! {

/// The fixed acknowledgement every message is answered with.
pub open spec fn ack_spec() -> Seq<char> {
    "Message received by main process"@
}

/// Returns the log path stored at startup, verbatim, with no normalization.
/// It cannot fail once the state exists, so the result is always `Ok`.
pub fn get_log_path(state: &AppState) -> (r: Result<String, String>)
    ensures
        r matches Ok(p) && p@ == state.log_path_view(),
{
    Ok(state.log_path().to_owned())
}

/// Answers a message from the front end. Whatever the message holds — empty,
/// control characters, anything — the reply is the fixed acknowledgement.
/// Writing the message to the log is left to the caller's logging layer.
#[allow(unused_variables)]
pub fn handle_message(message: &str) -> (r: Result<String, String>)
    ensures
        r matches Ok(a) && a@ == ack_spec(),
{
    Ok("Message received by main process".to_owned())
}

} // verus!
