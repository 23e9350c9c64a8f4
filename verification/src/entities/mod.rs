//! The records of the external store, as plain values.
//!
//! The store owns the records. The library holds snapshots of them and never
//! reads or writes the store itself.

pub mod workflow;
pub mod task;
pub mod plan;
pub mod tool_log;
pub mod job;
