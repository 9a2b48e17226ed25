//! Derivation of the log directory and log file path from the platform's
//! application-data directory.
//!
//! Paths are held as plain strings; components are joined with `/`, and the
//! log file always lives at `<data-dir>/logs/app.log`.

use vstd::prelude::*;

verus! {

/// The log directory: the `logs` subdirectory of the application-data
/// directory.
pub open spec fn log_dir_spec(data_dir: Seq<char>) -> Seq<char> {
    data_dir + "/"@ + "logs"@
}

/// The log file inside a directory: `app.log` joined onto it.
pub open spec fn log_file_spec(dir: Seq<char>) -> Seq<char> {
    dir + "/"@ + "app.log"@
}

/// The log path published at startup, as a function of the
/// application-data directory alone.
pub open spec fn log_path_spec(data_dir: Seq<char>) -> Seq<char> {
    log_file_spec(log_dir_spec(data_dir))
}

/// Joins one path component onto a base path with a `/` separator.
fn join_path(base: &str, name: &str) -> (r: String)
    ensures
        r@ == base@ + "/"@ + name@,
{
    let mut r = base.to_owned();
    r.append("/");
    r.append(name);
    r
}

/// The directory that holds the application's log file, derived from the
/// application-data directory.
pub fn log_dir_for(data_dir: &str) -> (r: String)
    ensures
        r@ == log_dir_spec(data_dir@),
{
    join_path(data_dir, "logs")
}

/// The log file path inside a log directory.
pub fn log_file_in(log_dir: &str) -> (r: String)
    ensures
        r@ == log_file_spec(log_dir@),
{
    join_path(log_dir, "app.log")
}

/// Law: for every application-data directory, the log path derived at
/// startup is exactly that directory followed by `/logs/app.log`.
pub proof fn lemma_log_path_form(data_dir: Seq<char>)
    ensures
        log_path_spec(data_dir) == data_dir + "/logs/app.log"@,
{
    reveal_strlit("/");
    reveal_strlit("logs");
    reveal_strlit("app.log");
    reveal_strlit("/logs/app.log");
    assert(log_path_spec(data_dir) =~= data_dir + "/logs/app.log"@);
}

} // verus!
