//! Command-and-status routing engine for a remotely controlled radio station.
//!
//! The engine bridges one human-facing chat channel and one machine-facing
//! pub/sub channel: free-text chat commands are parsed, authorized and turned
//! into actuation payloads, while inbound telemetry payloads are decoded,
//! diffed against the last known station status and turned into chat
//! notifications.  The engine itself performs no I/O: it consumes events and
//! returns the effects (chat sends, telemetry publishes) the surrounding
//! adapters must carry out.

pub mod actuation;
pub mod command;
pub mod engine;
pub mod metrics;
pub mod rfc3339;
pub mod status;
pub mod telemetry;
pub mod text;
pub mod tristate;
