//! Errors the pipeline's lifecycle operations can report.

use vstd::prelude::*;

verus! {

/// Why a lifecycle operation was refused.
///
/// Per-frame processing failures are not listed here: they are swallowed at
/// the worker boundary and never surface through `submit_frame`.
#[derive(Clone, Copy, Debug, PartialEq, Eq)]
pub enum PipelineError {
    /// `submit_frame` was called before a start or after a stop.
    NotRunning,
    /// `start` was called while the pipeline was already running.
    AlreadyRunning,
    /// The queue's consumer side was torn down while a submission was in
    /// flight.
    ChannelClosed,
    /// The worker terminated abnormally while a stop waited for it.
    JoinFailed,
}

impl PipelineError {
    /// A short human-readable description of the error.
    pub fn describe(&self) -> (r: &'static str)
        ensures
            r@ =~= match self {
                PipelineError::NotRunning => "encoder not running"@,
                PipelineError::AlreadyRunning => "encoder already running"@,
                PipelineError::ChannelClosed => "encoder channel not available"@,
                PipelineError::JoinFailed => "failed to join worker thread"@,
            },
    {
        match self {
            PipelineError::NotRunning => "encoder not running",
            PipelineError::AlreadyRunning => "encoder already running",
            PipelineError::ChannelClosed => "encoder channel not available",
            PipelineError::JoinFailed => "failed to join worker thread",
        }
    }
}

} // verus!
