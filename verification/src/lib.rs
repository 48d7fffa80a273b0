//! Core logic of a status-relay bridge: it tracks the stage of a single
//! "current file" moving through a remote storage-proof pipeline, derives a
//! device-facing status string from remote proof evidence, and hands status
//! lines to a serial device writer through a bounded FIFO queue.
//!
//! Everything here is verified. The I/O shell (socket server, HTTP client,
//! serial port, task scheduling) lives outside the library and only feeds
//! plain values in and out.

pub mod state;
pub mod store;
pub mod ingress;
pub mod queue;
pub mod roots;
pub mod text;
pub mod client;
pub mod writer;
pub mod poll;
