//! Command-resolution and safety-gating core of an administrative CLI for a
//! lending-protocol deployment.
//!
//! The crate models the layered configuration of one invocation (a stored
//! profile merged with per-invocation overrides), classifies commands as
//! read-only or mutating, decides the interactive consent protocol for
//! mutating commands, and turns a typed command into the fully resolved
//! processor invocation. All I/O (argument parsing, the profile store, the
//! terminal, the remote processor) lives in the surrounding driver; this
//! library is the part that decides, and every function here is verified.

pub mod bank;
pub mod command;
pub mod config;
pub mod consent;
pub mod dispatch;
