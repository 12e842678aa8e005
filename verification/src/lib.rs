//! Telemetry core for a small on-screen system overlay.
//!
//! The library covers the logic of the overlay: extracting positional fields
//! from the free-form report of an external GPU diagnostic tool, turning host
//! CPU/memory readings into structured values, merging everything into one
//! snapshot, rendering the snapshot as a fixed-layout text report, and
//! classifying window events into render-loop actions. Process invocation,
//! OS queries and the window/render plumbing live outside the library and
//! hand it plain values.

pub mod error;
pub mod extract;
pub mod gpu;
pub mod host;
pub mod lines;
pub mod numfmt;
pub mod schedule;
pub mod snapshot;
pub mod textio;
