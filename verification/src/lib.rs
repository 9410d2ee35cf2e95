//! Core logic of an SSH remote-development backend: host-key trust
//! management, transport bring-up planning, SFTP request policy, PTY pump
//! control, directory caching, and session bookkeeping.
//!
//! Everything here is synchronous, deterministic logic with contracts; the
//! surrounding process (network I/O, timers, the UI bus) drives it from
//! outside.

pub mod actor;
pub mod assoc;
pub mod auth;
pub mod commands;
pub mod connect;
pub mod credentials;
pub mod diagnostics;
pub mod dir_cache;
pub mod error;
pub mod ipc;
pub mod known_hosts;
pub mod paths;
pub mod pty;
pub mod registry;
pub mod runtime;
pub mod sftp;
pub mod text;
pub mod trace;
pub mod transcript;
