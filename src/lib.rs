//! Self-update orchestration: checking a remote source for a newer build,
//! reporting its metadata, and driving download progress and installation
//! through an explicit state machine whose transitions are verified.
//!
//! The library holds the decisions; the host performs the network calls,
//! publishes the events and runs the installer, handing each outcome back.

pub mod error;
pub mod info;
pub mod orchestrator;
pub mod progress;
