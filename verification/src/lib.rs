//! Client-side scheduler for a fixed pool of remote document-conversion
//! backends.
//!
//! Each backend serves one request at a time and may additionally report
//! itself busy for reasons outside the caller's control. The modules here
//! hold the verified core of the scheduler: the per-slot busy-cache policy,
//! the scan pass that selects an available backend, the detector that
//! recognises a pool blocked entirely by external causes, and the choice
//! between polling and waiting when a scan comes up empty. The surrounding
//! transport (HTTP probes and conversions) and the concurrency primitives
//! (per-slot guards, the free signal) live outside the library and drive
//! these functions.

pub mod client;
pub mod detector;
pub mod dispatch;
pub mod slot;
