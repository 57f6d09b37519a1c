//! A verified core for a certificate-transparency stream monitor.
//!
//! The library holds the logic of the monitor: compiling a set of textual
//! patterns, extracting domain lists from feed messages, matching domains
//! against the pattern set, rendering notifications, and the supervisor
//! state machine that governs the connection lifecycle. The surrounding
//! binary performs the network and console I/O and drives the state
//! machine with the events it observes.

pub mod extract;
pub mod matcher;
pub mod notify;
pub mod patterns;
pub mod session;
