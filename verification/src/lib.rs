//! Verified core of a small system-resource monitor: the integer part of its
//! settings and their validation, the alerting state machine that decides when a
//! resource alert is raised, the choice of the disk and process that a snapshot
//! reports, and the request dispatch of its JSON-RPC tool server.

pub mod config;
pub mod notifier;
pub mod monitor;
pub mod server;
pub mod shell;
