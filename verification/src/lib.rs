//! A minimal process watchdog.
//!
//! The watchdog periodically probes a long-running daemon over a datagram
//! transport, interprets the response to decide whether the daemon is
//! healthy, and, if the daemon reports a lost connection, locates its OS
//! process by exact name and sends it a termination request so that an
//! external supervisor can relaunch it.
//!
//! The crate is organised bottom-up:
//! - [`status`] classifies a decoded response text as a health status;
//! - [`probe`] performs one request/response exchange over a [`probe::Transport`];
//! - [`process`] enumerates and terminates processes through a
//!   [`process::ProcessControl`] capability;
//! - [`system`] backs that capability with the live OS process table;
//! - [`scheduler`] owns the run/cancel lifecycle and drives one
//!   probe-and-restart cycle per tick;
//! - [`report`] renders the structured status line of a cycle.

pub mod probe;
pub mod report;
pub mod process;
pub mod scheduler;
pub mod status;
pub mod system;
