//! A bounded, back-pressured frame-encoding pipeline.
//!
//! The pipeline accepts timestamped frames of binary data, holds them in a
//! bounded FIFO queue, and hands them to a worker for serialized processing,
//! while exposing start/stop lifecycle control and a running count of
//! processed frames.  The queue itself is a `crossbeam` bounded channel; the
//! control logic around it — lifecycle rules, exact frame accounting, the
//! worker's drain discipline — is verified.

pub mod config;
pub mod error;
pub mod pipeline;
pub mod queue;
pub mod worker;
