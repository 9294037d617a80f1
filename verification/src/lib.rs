//! Orchestration core of a desktop front-end for two command-line security
//! scanners: a compliance scanner (`oscap`) and a signature scanner (`yara`).
//!
//! The crate holds every decision the front-end takes and proves it against a
//! mathematical model: which argument vector a configuration yields, when a
//! scan may start, what the shared status becomes when the tool has run, how a
//! definitions download ends, and which text each of these publishes. Nothing
//! here starts a process, opens a dialog or touches the network; the caller
//! performs those steps and hands the outcomes back as plain values.
//!
//! No scan or download can be cancelled once the caller has started it: the
//! state machines below have no such transition, and a caller must not add
//! one behind their back.

pub mod arguments;
pub mod config;
pub mod download;
pub mod orchestrator;
pub mod report;
pub mod status;
pub mod text;
