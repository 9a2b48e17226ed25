//! Core of a desktop application's native backend shell.
//!
//! The backend's verifiable behaviour is small: at startup it derives a log
//! directory and a log file path from the platform's application-data
//! directory, publishes that path as process-wide state, and afterwards
//! answers three remote commands (fetch the log path, restart the process,
//! echo a message). This crate holds that logic — the path derivation, the
//! startup error handling, and the command handlers that compute anything —
//! with contracts that pin down every result. The host framework's event
//! loop, plugin registration, and filesystem calls live outside the library
//! and hand it plain values.

pub mod commands;
pub mod paths;
pub mod startup;
pub mod state;
