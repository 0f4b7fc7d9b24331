//! Error taxonomy of the pipeline core.
//!
//! Variants carry structured fields so that contracts can state exactly
//! which error an input produces; callers that need human-readable text
//! render these outside the verified core.

use vstd::prelude::*;

verus! {

/// Errors arising from manifest validation and decoding.
#[derive(Debug, Clone, Copy, PartialEq, Eq, Structural)]
pub enum ManifestError {
    /// A stage's layer range does not begin where the previous one ended.
    NonContiguousLayers { stage_idx: usize, end: usize, next_start: usize },
    /// The manifest declares no stages.
    EmptyStages,
    /// A stage's `layer_start` is not below its `layer_end`.
    InvalidLayerRange { stage_idx: usize, start: usize, end: usize },
    /// The last stage's `layer_end` differs from `total_layers`.
    LayerCountMismatch { covered: usize, total: usize },
    /// Stage 0 does not start at layer 0.
    LayerStartNotZero { start: usize },
    /// A stage's `stage_idx` field differs from its position in the list.
    WrongStageIndex { stage_idx: usize, actual: usize },
    /// The byte encoding of a manifest could not be decoded.
    MalformedEncoding,
    /// A hex measurement string held a non-hex digit or an odd length.
    MalformedHex { stage_idx: usize },
}

/// Errors from the scheduler.
#[derive(Debug, Clone, Copy, PartialEq, Eq, Structural)]
pub enum SchedulerError {
    /// A schedule was requested for zero stages.
    ZeroStages,
    /// A schedule was requested for zero micro-batches.
    ZeroMicroBatches,
}

/// Errors from a pipeline stage.
#[derive(Debug)]
pub enum StageError {
    /// The executor's `init` failed.
    InitFailed(String),
    /// A forward pass failed.
    ForwardFailed { request_id: u64, micro_batch: u32, reason: String },
    /// A control message arrived that the protocol does not allow here.
    UnexpectedMessage(String),
    /// The secure channel reported an error.
    Transport(String),
    /// The peer closed the channel.
    ChannelClosed,
    /// The two sides disagree about the protocol.
    Protocol(String),
}

/// Top-level pipeline error.
#[derive(Debug)]
pub enum PipelineError {
    /// Manifest validation or decoding failed.
    Manifest(ManifestError),
    /// Schedule generation failed.
    Scheduler(SchedulerError),
    /// A stage-local failure.
    Stage(StageError),
    /// The secure channel reported an error.
    Transport(String),
    /// A peer stage reported a fatal failure.
    StageFailed { stage_idx: usize, reason: String },
    /// An inference request failed; the end-user view of a stage failure.
    RequestFailed { request_id: u64, reason: String },
    /// The peer initiated teardown.
    Shutdown,
    /// A socket or file error.
    Io(String),
    /// An operation exceeded its time budget.
    Timeout(String),
    /// The pipeline gave up after an unrecoverable timeout; the instance
    /// must be discarded and rebuilt.
    Tainted,
    /// The two sides disagree about the protocol.
    Protocol(String),
    /// A tagged payload could not be decoded.
    Serialization(String),
}

/// Convenience alias.
pub type Result<T> = core::result::Result<T, PipelineError>;

} // verus!
