//! The process-wide state published at startup.

use vstd::prelude::*;

verus! {

/// The single piece of shared state the backend holds: the log file path
/// computed at startup. It is created once, before any command can run, and
/// never written again.
pub struct AppState {
    log_path: String,
}

impl AppState {
    /// The stored log path, as contracts see it.
    pub closed spec fn log_path_view(&self) -> Seq<char> {
        self.log_path@
    }

    /// Publishes the state with the given log path, kept verbatim.
    pub fn new(log_path: String) -> (s: Self)
        ensures
            s.log_path_view() == log_path@,
    {
        AppState { log_path }
    }

    /// The stored log path, verbatim.
    pub fn log_path(&self) -> (r: &str)
        ensures
            r@ == self.log_path_view(),
    {
        self.log_path.as_str()
    }
}

} // verus!
