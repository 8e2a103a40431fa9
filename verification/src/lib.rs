//! A minimal real-time rendering harness, verified with Verus.
//!
//! The library holds the logic of the pipeline bootstrap and the frame loop:
//! shader compile/link bookkeeping, geometry upload validation, the ordered
//! per-frame command sequence, and the draining and classification of GPU
//! error codes. The GPU and windowing calls themselves are issued by a thin
//! unverified driver layer that interprets the commands this library emits.

pub mod config;
pub mod diagnostics;
pub mod geometry;
pub mod frame;
pub mod shader;
