//! Streams telemetry from an embedded target to external consumers.
//!
//! `value` holds the payload envelope and the receive-path cascade
//! (structured record, then text, then bytes); `sink` the per-client
//! bookkeeping of the sink workers; `router` the plan that gives every
//! distinct link one sink, the target-to-sink encoding and the attach retry
//! machine; `target` what is read from the target's ELF image; `config` and
//! `selection` the run options and the choice of debug probe.
pub mod config;
pub mod router;
pub mod selection;
pub mod sink;
pub mod target;
pub mod value;
