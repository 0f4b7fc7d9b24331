//! Control plane of a confidential-ML inference pipeline.
//!
//! A large model is sharded across attested enclave stages; activations
//! stream between them over mutually authenticated encrypted channels.
//! This crate holds the verified core: the shard manifest and its
//! validation, the tagged wire codec for control messages, the fill-drain
//! inference schedule, the relay plan, and the orchestrator and stage
//! decision logic (state machines over control and data events).
//!
//! Transport I/O, attestation handshakes, and the async runtime live
//! outside this crate; they feed events in and carry the decided actions
//! out.

pub mod codec;
pub mod error;
pub mod manifest;
pub mod manifest_wire;
pub mod orchestrator;
pub mod protocol;
pub mod relay;
pub mod scheduler;
pub mod stage;
pub mod tensor;
pub mod text;
pub mod transport;

pub use error::{ManifestError, PipelineError, Result, SchedulerError, StageError};
pub use manifest::{
    ActivationDType, ActivationSpec, Measurement, PortSpec, ShardManifest, StageEndpoint,
    StageSpec,
};
pub use orchestrator::{
    rand_request_id, InferStart, OrchestratorCore, OutputCollector, PipelinePhase, PongClass,
};
pub use protocol::{OrchestratorMsg, StageMsg};
pub use relay::relay_plan;
pub use scheduler::{InferenceSchedule, PipeOp, StageSchedule};
pub use stage::{ProcessAction, StageCore, StagePhase, WeightHashCheck};
pub use tensor::{DataMsg, Tensor, TensorDType};
pub use transport::resolve_vsock;
