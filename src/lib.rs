//! Operator tool for one self-hosted game server: backups coordinated over the
//! server's remote console, recurring backups in a terminal session, and the
//! server's start and stop scripts.
//!
//! Every procedure is a [`plan::Run`]: a fixed list of external commands with
//! the rule that decides, after each one, whether the next one is issued. The
//! caller performs each command and reports whether it succeeded.

pub mod timestamp;
pub mod plan;
pub mod config;
pub mod backup;
pub mod schedule;
pub mod lifecycle;
