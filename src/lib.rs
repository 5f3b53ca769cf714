//! Live dashboard snapshot broadcasting: a single-slot snapshot store, a
//! fan-out registry of bounded per-subscriber mailboxes, the producer step
//! that commits and publishes one snapshot per tick, and the per-connection
//! session state machine.

pub mod metrics;
pub mod snapshot;
pub mod fanout;
pub mod hub;
pub mod laws;
pub mod session;
