//! A minimal endpoint health monitor, verified with Verus.
//!
//! The library holds everything the monitor decides and computes: endpoint
//! descriptors, classification of probe outcomes, log-line and alert text,
//! and the per-endpoint polling state machine. The surrounding binary does
//! the network calls, file writes and desktop notifications, handing this
//! library plain values and acting on what it returns.

pub mod config;
pub mod decimal;
pub mod endpoint;
pub mod probe;
pub mod report;
pub mod schedule;
