//! The orchestrator's decision core: the pipeline lifecycle state
//! machine, the classification of stage replies, and the collection of
//! output micro-batches.
//!
//! The orchestrator proper drives secure channels and timers; every
//! decision it takes — which message to send, what a reply means, when
//! the pipeline is usable, drained, or tainted — is a function here, so
//! the protocol logic is verified while the I/O stays outside.
//!
//! Lifecycle: `Uninit → Initialised → DataChannelsReady → Idle →
//! InFlight → Idle | Tainted | ShutDown`. `Tainted` is terminal: every
//! subsequent request or health check fails fast, and only a best-effort
//! shutdown is attempted.

use vstd::prelude::*;

use crate::error::PipelineError;
use crate::manifest::{valid_manifest, spec_validate, ShardManifest};
use crate::manifest_wire::{spec_enc_activation, spec_enc_stage_spec};
use crate::protocol::{OrchestratorMsg, OrchestratorMsgV, StageMsg, StageMsgV};
use crate::tensor::{spec_classify_data_msg, DataMsg, DataMsgClass, DataMsgV, Tensor, TensorV};
use crate::text::{spec_decimal, u64_to_string};
use vstd::string::StringExecFns;

verus! {

/// Pipeline lifecycle state.
#[derive(Debug, Clone, Copy, PartialEq, Eq, Structural)]
pub enum PipelinePhase {
    /// Constructed; control channels not yet established.
    Uninit,
    /// All stages answered `Ready`.
    Initialised,
    /// Data channels established; ready confirmations collected.
    DataChannelsReady,
    /// Between requests; a new request may start.
    Idle,
    /// A request is in flight.
    InFlight { request_id: u64 },
    /// An unrecoverable timeout; the instance must be discarded.
    Tainted,
    /// Torn down.
    ShutDown,
}

/// What `begin_infer` decides.
#[derive(Debug, Clone, Copy, PartialEq, Eq, Structural)]
pub enum InferStart {
    /// No micro-batches: return an empty result without touching the
    /// data channels.
    Empty,
    /// The request is admitted; the caller drives it.
    Started,
}

/// The four-way gate on starting a request.
#[derive(Debug, Clone, Copy, PartialEq, Eq, Structural)]
pub enum InferGate {
    Tainted,
    NotReady,
    Empty,
    Started,
}

/// Whether a new request may start in phase `p` with `m` micro-batches,
/// checking taint first.
pub open spec fn spec_infer_gate(p: PipelinePhase, m: u32) -> InferGate {
    if p == PipelinePhase::Tainted {
        InferGate::Tainted
    } else if p != PipelinePhase::Idle {
        InferGate::NotReady
    } else if m == 0 {
        InferGate::Empty
    } else {
        InferGate::Started
    }
}

/// The phase after `begin_infer`: only an admitted request changes it.
pub open spec fn spec_begin_infer_phase(p: PipelinePhase, request_id: u64, m: u32) -> PipelinePhase {
    if spec_infer_gate(p, m) == InferGate::Started {
        PipelinePhase::InFlight { request_id }
    } else {
        p
    }
}

/// The phase after a request ends, in success or in failure: the
/// pipeline is usable again.
pub open spec fn spec_end_request_phase(p: PipelinePhase) -> PipelinePhase {
    if p matches PipelinePhase::InFlight { .. } {
        PipelinePhase::Idle
    } else {
        p
    }
}

/// The phase after an inference timeout: a clean drain returns the
/// pipeline to `Idle`; a failed drain taints it.
pub open spec fn spec_timeout_phase(p: PipelinePhase, drained: bool) -> PipelinePhase {
    if drained {
        PipelinePhase::Idle
    } else {
        PipelinePhase::Tainted
    }
}

/// The phase after `shutdown`: terminal either way, and taint is never
/// cleared.
pub open spec fn spec_shutdown_phase(p: PipelinePhase) -> PipelinePhase {
    if p == PipelinePhase::Tainted {
        PipelinePhase::Tainted
    } else {
        PipelinePhase::ShutDown
    }
}

/// Taint is terminal: once the pipeline is tainted, a request is refused
/// fast, its phase never leaves `Tainted`, and shutdown does not clear it.
pub proof fn law_tainted_is_terminal(request_id: u64, m: u32, drained: bool)
    ensures
        spec_infer_gate(PipelinePhase::Tainted, m) == InferGate::Tainted,
        spec_begin_infer_phase(PipelinePhase::Tainted, request_id, m) == PipelinePhase::Tainted,
        spec_end_request_phase(PipelinePhase::Tainted) == PipelinePhase::Tainted,
        spec_shutdown_phase(PipelinePhase::Tainted) == PipelinePhase::Tainted,
{
}

/// Shutdown after shutdown is safe: the second teardown finds the same
/// terminal phase the first one left.
pub proof fn law_shutdown_idempotent(p: PipelinePhase)
    ensures
        spec_shutdown_phase(spec_shutdown_phase(p)) == spec_shutdown_phase(p),
{
}

/// After a drained (non-tainting) timeout the pipeline accepts a new
/// request.
pub proof fn law_infer_after_drained_timeout(p: PipelinePhase, request_id: u64, m: u32)
    requires
        m > 0,
    ensures
        spec_infer_gate(spec_timeout_phase(p, true), m) == InferGate::Started,
{
}

/// A failed request leaves the pipeline usable: the next request is
/// admitted.
pub proof fn law_usable_after_request_failure(request_id: u64, old_id: u64, m: u32)
    requires
        m > 0,
    ensures
        spec_infer_gate(
            spec_end_request_phase(PipelinePhase::InFlight { request_id: old_id }),
            m,
        ) == InferGate::Started,
{
}

/// A request with no micro-batches is answered empty, from `Idle`, with
/// no phase change: the data channels are never touched.
pub proof fn law_empty_infer(request_id: u64)
    ensures
        spec_infer_gate(PipelinePhase::Idle, 0) == InferGate::Empty,
        spec_begin_infer_phase(PipelinePhase::Idle, request_id, 0) == PipelinePhase::Idle,
{
}

/// The orchestrator's verified core: the manifest and the lifecycle
/// phase. Channels, timers and relay handles live with the caller.
pub struct OrchestratorCore {
    pub manifest: ShardManifest,
    pub phase: PipelinePhase,
}

impl OrchestratorCore {
    /// Construct the core, validating the manifest.
    pub fn new(manifest: ShardManifest) -> (r: Result<Self, PipelineError>)
        ensures
            match spec_validate(manifest@) {
                Ok(_) => r matches Ok(c) && c.manifest == manifest && c.phase
                    == PipelinePhase::Uninit,
                Err(e) => r == Err::<Self, _>(PipelineError::Manifest(e)),
            },
            r is Ok <==> valid_manifest(manifest@),
    {
        match manifest.validate() {
            Ok(_) => Ok(OrchestratorCore { manifest, phase: PipelinePhase::Uninit }),
            Err(e) => Err(PipelineError::Manifest(e)),
        }
    }

    /// Number of stages in the pipeline.
    pub fn num_stages(&self) -> (r: usize)
        ensures
            r == self.manifest.stages@.len(),
    {
        self.manifest.stages.len()
    }

    /// Whether the pipeline has given up after an unrecoverable timeout.
    pub fn is_tainted(&self) -> (r: bool)
        ensures
            r == (self.phase == PipelinePhase::Tainted),
    {
        self.phase == PipelinePhase::Tainted
    }

    /// The `Init` message for stage `i`: its encoded spec, the encoded
    /// activation spec, and the stage count.
    pub fn init_msg(&self, i: usize) -> (r: OrchestratorMsg)
        requires
            i < self.manifest.stages@.len(),
        ensures
            r@ == (OrchestratorMsgV::Init {
                stage_spec: spec_enc_stage_spec(self.manifest@.stages[i as int]),
                activation_spec: spec_enc_activation(self.manifest@.activation_spec),
                num_stages: self.manifest.stages@.len() as usize,
            }),
    {
        OrchestratorMsg::Init {
            stage_spec: self.manifest.stages[i].to_bytes(),
            activation_spec: self.manifest.activation_spec.to_bytes(),
            num_stages: self.manifest.stages.len(),
        }
    }

    /// All stages answered `Ready`.
    pub fn mark_initialised(&mut self)
        requires
            old(self).phase == PipelinePhase::Uninit,
        ensures
            final(self).phase == PipelinePhase::Initialised,
            final(self).manifest == old(self).manifest,
    {
        self.phase = PipelinePhase::Initialised;
    }

    /// Data channels are established and every stage confirmed.
    pub fn mark_data_channels_ready(&mut self)
        requires
            old(self).phase == PipelinePhase::Initialised,
        ensures
            final(self).phase == PipelinePhase::DataChannelsReady,
            final(self).manifest == old(self).manifest,
    {
        self.phase = PipelinePhase::DataChannelsReady;
    }

    /// The pipeline turns to waiting for requests.
    pub fn mark_idle(&mut self)
        requires
            old(self).phase == PipelinePhase::DataChannelsReady,
        ensures
            final(self).phase == PipelinePhase::Idle,
            final(self).manifest == old(self).manifest,
    {
        self.phase = PipelinePhase::Idle;
    }

    /// Gate a new request: tainted pipelines refuse fast, only an idle
    /// pipeline admits one, and zero micro-batches are answered empty
    /// without touching the data channels.
    pub fn begin_infer(&mut self, request_id: u64, num_micro_batches: u32) -> (r: Result<
        InferStart,
        PipelineError,
    >)
        ensures
            final(self).manifest == old(self).manifest,
            final(self).phase == spec_begin_infer_phase(
                old(self).phase,
                request_id,
                num_micro_batches,
            ),
            match spec_infer_gate(old(self).phase, num_micro_batches) {
                InferGate::Tainted => r == Err::<InferStart, _>(PipelineError::Tainted),
                InferGate::NotReady => r matches Err(e) && e is Protocol,
                InferGate::Empty => r == Ok::<_, PipelineError>(InferStart::Empty),
                InferGate::Started => r == Ok::<_, PipelineError>(InferStart::Started),
            },
    {
        if self.phase == PipelinePhase::Tainted {
            Err(PipelineError::Tainted)
        } else if self.phase != PipelinePhase::Idle {
            Err(PipelineError::Protocol("pipeline is not ready for a request".to_owned()))
        } else if num_micro_batches == 0 {
            Ok(InferStart::Empty)
        } else {
            self.phase = PipelinePhase::InFlight { request_id };
            Ok(InferStart::Started)
        }
    }

    /// A request ended, in success or in promoted failure: the pipeline
    /// is idle again.
    pub fn end_request(&mut self)
        requires
            old(self).phase matches PipelinePhase::InFlight { .. },
        ensures
            final(self).phase == spec_end_request_phase(old(self).phase),
            final(self).phase == PipelinePhase::Idle,
            final(self).manifest == old(self).manifest,
    {
        self.phase = PipelinePhase::Idle;
    }

    /// An inference timeout was handled: a clean drain leaves the
    /// pipeline idle; a failed drain taints it for good.
    pub fn note_timeout(&mut self, drained: bool)
        requires
            old(self).phase matches PipelinePhase::InFlight { .. },
        ensures
            final(self).phase == spec_timeout_phase(old(self).phase, drained),
            final(self).manifest == old(self).manifest,
    {
        if drained {
            self.phase = PipelinePhase::Idle;
        } else {
            self.phase = PipelinePhase::Tainted;
        }
    }

    /// Gate a health check: a tainted pipeline refuses fast.
    pub fn health_gate(&self) -> (r: Result<(), PipelineError>)
        ensures
            self.phase == PipelinePhase::Tainted ==> r == Err::<(), _>(PipelineError::Tainted),
            self.phase != PipelinePhase::Tainted ==> r is Ok,
    {
        if self.phase == PipelinePhase::Tainted {
            Err(PipelineError::Tainted)
        } else {
            Ok(())
        }
    }

    /// Teardown: terminal from every phase; taint is never cleared.
    pub fn mark_shutdown(&mut self)
        ensures
            final(self).phase == spec_shutdown_phase(old(self).phase),
            final(self).manifest == old(self).manifest,
    {
        if self.phase != PipelinePhase::Tainted {
            self.phase = PipelinePhase::ShutDown;
        }
    }
}

/// The data-channel flags for stage `i` of `n`: every stage but the
/// first has an upstream link, every stage but the last a downstream one.
pub fn establish_msg(i: usize, n: usize) -> (r: OrchestratorMsg)
    requires
        i < n,
    ensures
        r@ == (OrchestratorMsgV::EstablishDataChannels {
            has_upstream: i > 0,
            has_downstream: i + 1 < n,
        }),
{
    OrchestratorMsg::EstablishDataChannels { has_upstream: i > 0, has_downstream: i + 1 < n }
}

/// The reason the orchestrator reports for a stage's request error.
pub open spec fn spec_stage_error_reason(stage_idx: usize, error: Seq<char>) -> Seq<char> {
    "stage "@ + spec_decimal(stage_idx as nat) + " error: "@ + error
}

/// Build the reason text for a stage's request error.
fn stage_error_reason(stage_idx: usize, error: &String) -> (r: String)
    ensures
        r@ == spec_stage_error_reason(stage_idx, error@),
{
    let mut s = "stage ".to_owned();
    let digits = u64_to_string(stage_idx as u64);
    s.append(digits.as_str());
    s.append(" error: ");
    s.append(error.as_str());
    s
}

/// During `init`, stage `stage_idx` must answer exactly `Ready` with its
/// own index; anything else is a protocol error.
pub fn expect_ready(msg: &StageMsg, stage_idx: usize) -> (r: Result<(), PipelineError>)
    ensures
        r is Ok <==> msg@ == (StageMsgV::Ready { stage_idx }),
        r is Err ==> (r matches Err(e) && e is Protocol),
{
    match msg {
        StageMsg::Ready { stage_idx: i } => {
            if *i == stage_idx {
                Ok(())
            } else {
                Err(PipelineError::Protocol("expected Ready with the stage's index".to_owned()))
            }
        },
        _ => Err(PipelineError::Protocol("expected Ready".to_owned())),
    }
}

/// During data-channel establishment, stage `stage_idx` must answer
/// exactly `DataChannelsReady` with its own index.
pub fn expect_data_channels_ready(msg: &StageMsg, stage_idx: usize) -> (r: Result<
    (),
    PipelineError,
>)
    ensures
        r is Ok <==> msg@ == (StageMsgV::DataChannelsReady { stage_idx }),
        r is Err ==> (r matches Err(e) && e is Protocol),
{
    match msg {
        StageMsg::DataChannelsReady { stage_idx: i } => {
            if *i == stage_idx {
                Ok(())
            } else {
                Err(
                    PipelineError::Protocol(
                        "expected DataChannelsReady with the stage's index".to_owned(),
                    ),
                )
            }
        },
        _ => Err(PipelineError::Protocol("expected DataChannelsReady".to_owned())),
    }
}

/// On the success path of a request, each stage owes `RequestDone` for
/// this request; its `RequestError` is promoted to the user-visible
/// request failure, and anything else is a protocol error.
pub fn expect_request_reply(msg: &StageMsg, request_id: u64, stage_idx: usize) -> (r: Result<
    (),
    PipelineError,
>)
    ensures
        r is Ok <==> msg@ == (StageMsgV::RequestDone { request_id }),
        match msg@ {
            StageMsgV::RequestDone { request_id: rid } => if rid == request_id {
                r is Ok
            } else {
                (r matches Err(e) && e is Protocol)
            },
            StageMsgV::RequestError { request_id: rid, error } => if rid == request_id {
                (r matches Err(PipelineError::RequestFailed { request_id: q, reason }) && q
                    == request_id && reason@ == spec_stage_error_reason(stage_idx, error))
            } else {
                (r matches Err(e) && e is Protocol)
            },
            _ => (r matches Err(e) && e is Protocol),
        },
{
    match msg {
        StageMsg::RequestDone { request_id: rid } => {
            if *rid == request_id {
                Ok(())
            } else {
                Err(PipelineError::Protocol("RequestDone for another request".to_owned()))
            }
        },
        StageMsg::RequestError { request_id: rid, error } => {
            if *rid == request_id {
                Err(
                    PipelineError::RequestFailed {
                        request_id,
                        reason: stage_error_reason(stage_idx, error),
                    },
                )
            } else {
                Err(PipelineError::Protocol("RequestError for another request".to_owned()))
            }
        },
        _ => Err(PipelineError::Protocol("expected RequestDone or RequestError".to_owned())),
    }
}

/// After the data path reported a stage failure, scan each stage's
/// control reply: a `RequestError` for this request is promoted to the
/// user-visible request failure; everything else is passed over.
pub fn scan_error_reply(msg: &StageMsg, request_id: u64, stage_idx: usize) -> (r: Option<
    PipelineError,
>)
    ensures
        match msg@ {
            StageMsgV::RequestError { request_id: rid, error } => if rid == request_id {
                (r matches Some(PipelineError::RequestFailed { request_id: q, reason }) && q
                    == request_id && reason@ == spec_stage_error_reason(stage_idx, error))
            } else {
                r is None
            },
            _ => r is None,
        },
{
    match msg {
        StageMsg::RequestError { request_id: rid, error } => {
            if *rid == request_id {
                Some(
                    PipelineError::RequestFailed {
                        request_id,
                        reason: stage_error_reason(stage_idx, error),
                    },
                )
            } else {
                None
            }
        },
        _ => None,
    }
}

/// Whether a control reply ends the per-stage drain after an aborted
/// request: a terminal report for that request, or the stage announcing
/// shutdown. Stale reports of other requests are skipped.
pub open spec fn spec_drain_terminal(m: StageMsgV, request_id: u64) -> bool {
    match m {
        StageMsgV::RequestDone { request_id: rid } => rid == request_id,
        StageMsgV::RequestError { request_id: rid, .. } => rid == request_id,
        StageMsgV::ShuttingDown { .. } => true,
        _ => false,
    }
}

/// Classify a control reply seen while draining an aborted request.
pub fn drain_reply_terminal(msg: &StageMsg, request_id: u64) -> (r: bool)
    ensures
        r == spec_drain_terminal(msg@, request_id),
{
    match msg {
        StageMsg::RequestDone { request_id: rid } => *rid == request_id,
        StageMsg::RequestError { request_id: rid, .. } => *rid == request_id,
        StageMsg::ShuttingDown { .. } => true,
        _ => false,
    }
}

/// How the tolerant health-check reader treats one control reply.
#[derive(Debug, Clone, Copy, PartialEq, Eq, Structural)]
pub enum PongClass {
    /// The matching `Pong`: this stage is healthy.
    Accept,
    /// A stale report from a drained request: skip it and read on.
    Stale,
    /// Wrong sequence number or shape: fatal.
    Fatal,
}

/// The tolerant health-check reader: the matching `Pong` is accepted;
/// stale `RequestDone` / `RequestError` left over from a drained request
/// are skipped; a `Pong` with the wrong sequence number, or any other
/// message, is fatal.
pub open spec fn spec_pong_action(m: StageMsgV, seq: u64) -> PongClass {
    match m {
        StageMsgV::Pong { seq: s } => if s == seq {
            PongClass::Accept
        } else {
            PongClass::Fatal
        },
        StageMsgV::RequestDone { .. } => PongClass::Stale,
        StageMsgV::RequestError { .. } => PongClass::Stale,
        _ => PongClass::Fatal,
    }
}

/// Classify one control reply during a health check.
pub fn pong_action(msg: &StageMsg, seq: u64) -> (r: PongClass)
    ensures
        r == spec_pong_action(msg@, seq),
{
    match msg {
        StageMsg::Pong { seq: s } => {
            if *s == seq {
                PongClass::Accept
            } else {
                PongClass::Fatal
            }
        },
        StageMsg::RequestDone { .. } => PongClass::Stale,
        StageMsg::RequestError { .. } => PongClass::Stale,
        _ => PongClass::Fatal,
    }
}

/// Whether a control reply is the stage announcing shutdown; during
/// teardown every other message is noted and passed over.
pub fn is_shutting_down(msg: &StageMsg) -> (r: bool)
    ensures
        r == (msg@ matches StageMsgV::ShuttingDown { .. }),
{
    match msg {
        StageMsg::ShuttingDown { .. } => true,
        _ => false,
    }
}

/// Relies on `std::time::SystemTime`: a pseudo-random request token from
/// the clock. Nothing is promised of the value; uniqueness within one
/// orchestrator's lifetime is the caller's concern.
#[verifier::external_body]
pub fn rand_request_id() -> u64 {
    let d = std::time::SystemTime::now().duration_since(
        std::time::SystemTime::UNIX_EPOCH,
    ).unwrap_or_default();
    d.as_nanos() as u64
}

/// One step's result when collecting output micro-batches.
#[derive(Debug, Clone, Copy, PartialEq, Eq, Structural)]
pub enum FeedOutcome {
    /// Keep reading.
    More,
    /// Every expected micro-batch has arrived.
    Done,
    /// The `ERR` sentinel: a stage failed during the request.
    Failed,
    /// The peer shut the channel down.
    ShutdownSeen,
    /// A message the data channel does not allow here.
    OutOfProtocol,
}

/// Mathematical state of the output collector.
pub ghost struct CollectorV {
    pub expected: u32,
    pub outputs: Seq<Seq<TensorV>>,
    pub current: Seq<TensorV>,
}

/// Collects the output tensors from the last stage's data channel, one
/// micro-batch at a time, until the expected count has arrived.
pub struct OutputCollector {
    pub expected: u32,
    pub outputs: Vec<Vec<Tensor>>,
    pub current: Vec<Tensor>,
}

impl View for OutputCollector {
    type V = CollectorV;

    open spec fn view(&self) -> CollectorV {
        CollectorV {
            expected: self.expected,
            outputs: self.outputs.deep_view(),
            current: self.current.deep_view(),
        }
    }
}

/// One collection step: a tensor joins the open micro-batch, `END`
/// closes it (done when it is the last expected one), `ERR`, shutdown
/// and anything else stop the collection; only the first two change the
/// state.
pub open spec fn spec_feed(st: CollectorV, m: DataMsgV) -> (CollectorV, FeedOutcome) {
    match spec_classify_data_msg(m) {
        DataMsgClass::TensorItem => (
            CollectorV { current: st.current.push(m->Tensor_0), ..st },
            FeedOutcome::More,
        ),
        DataMsgClass::EndOfBatch => {
            let outs = st.outputs.push(st.current);
            (
                CollectorV { outputs: outs, current: Seq::<TensorV>::empty(), ..st },
                if outs.len() == st.expected {
                    FeedOutcome::Done
                } else {
                    FeedOutcome::More
                },
            )
        },
        DataMsgClass::ErrorSentinel => (st, FeedOutcome::Failed),
        DataMsgClass::ShutdownMsg => (st, FeedOutcome::ShutdownSeen),
        DataMsgClass::Unexpected => (st, FeedOutcome::OutOfProtocol),
    }
}

impl OutputCollector {
    /// A fresh collector expecting `expected` micro-batches.
    pub fn new(expected: u32) -> (r: Self)
        ensures
            r@ == (CollectorV {
                expected,
                outputs: Seq::<Seq<TensorV>>::empty(),
                current: Seq::<TensorV>::empty(),
            }),
    {
        let r = OutputCollector { expected, outputs: Vec::new(), current: Vec::new() };
        proof {
            assert(r.outputs.deep_view() =~= Seq::<Seq<TensorV>>::empty());
            assert(r.current.deep_view() =~= Seq::<TensorV>::empty());
        }
        r
    }

    /// Feed one data-channel message; `Ok(true)` when the last expected
    /// micro-batch is complete. The `ERR` sentinel surfaces as a stage
    /// failure, shutdown as shutdown, anything else as a protocol error.
    pub fn feed(&mut self, m: DataMsg) -> (r: Result<bool, PipelineError>)
        ensures
            final(self)@ == spec_feed(old(self)@, m@).0,
            match spec_feed(old(self)@, m@).1 {
                FeedOutcome::More => r == Ok::<bool, PipelineError>(false),
                FeedOutcome::Done => r == Ok::<bool, PipelineError>(true),
                FeedOutcome::Failed => (r matches Err(e) && e is StageFailed),
                FeedOutcome::ShutdownSeen => r == Err::<bool, _>(PipelineError::Shutdown),
                FeedOutcome::OutOfProtocol => (r matches Err(e) && e is Protocol),
            },
    {
        let ghost pre = self@;
        match m {
            DataMsg::Tensor(t) => {
                let ghost tv = t@;
                self.current.push(t);
                proof {
                    assert(self.current.deep_view() =~= pre.current.push(tv));
                }
                Ok(false)
            },
            DataMsg::Data(b) => {
                if b.len() == 3 && b[0] == 69u8 && b[1] == 78u8 && b[2] == 68u8 {
                    proof {
                        assert(b@ =~= crate::tensor::end_marker_bytes());
                    }
                    let mut closed: Vec<Tensor> = Vec::new();
                    core::mem::swap(&mut closed, &mut self.current);
                    let ghost closedv = closed.deep_view();
                    self.outputs.push(closed);
                    proof {
                        assert(self.outputs.deep_view() =~= pre.outputs.push(pre.current));
                        assert(self.current.deep_view() =~= Seq::<TensorV>::empty());
                    }
                    if self.outputs.len() == self.expected as usize {
                        Ok(true)
                    } else {
                        Ok(false)
                    }
                } else if b.len() == 3 && b[0] == 69u8 && b[1] == 82u8 && b[2] == 82u8 {
                    proof {
                        assert(b@ =~= crate::tensor::err_marker_bytes());
                    }
                    Err(
                        PipelineError::StageFailed {
                            stage_idx: 0,
                            reason: "stage reported error on data channel".to_owned(),
                        },
                    )
                } else {
                    proof {
                        if b@ == crate::tensor::end_marker_bytes() {
                            assert(b@.len() == 3 && b@[0] == 69u8 && b@[1] == 78u8 && b@[2]
                                == 68u8);
                        }
                        if b@ == crate::tensor::err_marker_bytes() {
                            assert(b@.len() == 3 && b@[0] == 69u8 && b@[1] == 82u8 && b@[2]
                                == 82u8);
                        }
                    }
                    Err(PipelineError::Protocol("unexpected bytes on the data channel".to_owned()))
                }
            },
            DataMsg::Shutdown => Err(PipelineError::Shutdown),
            DataMsg::Heartbeat => Err(
                PipelineError::Protocol("unexpected heartbeat on the data channel".to_owned()),
            ),
            DataMsg::Error(_) => Err(
                PipelineError::Protocol("unexpected error frame on the data channel".to_owned()),
            ),
        }
    }

    /// Hand the collected micro-batches out, in arrival order.
    pub fn into_outputs(self) -> (r: Vec<Vec<Tensor>>)
        ensures
            r.deep_view() == self@.outputs,
    {
        self.outputs
    }
}

/// The event stream of one micro-batch: its tensors, then `END`.
pub open spec fn group_events(g: Seq<TensorV>) -> Seq<DataMsgV> {
    tensor_events(g).push(DataMsgV::Data(crate::tensor::end_marker_bytes()))
}

/// The tensor messages of one micro-batch, in order.
pub open spec fn tensor_events(g: Seq<TensorV>) -> Seq<DataMsgV> {
    Seq::new(g.len(), |i: int| DataMsgV::Tensor(g[i]))
}

/// The event stream of a whole request: each micro-batch's stream, in
/// push order.
pub open spec fn batch_events(groups: Seq<Seq<TensorV>>) -> Seq<DataMsgV>
    decreases groups.len(),
{
    if groups.len() == 0 {
        Seq::<DataMsgV>::empty()
    } else {
        group_events(groups[0]) + batch_events(groups.drop_first())
    }
}

/// Run the collector over a stream of messages.
pub open spec fn spec_run_feed(st: CollectorV, msgs: Seq<DataMsgV>) -> CollectorV
    decreases msgs.len(),
{
    if msgs.len() == 0 {
        st
    } else {
        spec_run_feed(spec_feed(st, msgs[0]).0, msgs.drop_first())
    }
}

proof fn lemma_run_feed_concat(st: CollectorV, a: Seq<DataMsgV>, b: Seq<DataMsgV>)
    ensures
        spec_run_feed(st, a + b) == spec_run_feed(spec_run_feed(st, a), b),
    decreases a.len(),
{
    if a.len() == 0 {
        assert(a + b =~= b);
    } else {
        assert((a + b)[0] == a[0]);
        assert((a + b).drop_first() =~= a.drop_first() + b);
        lemma_run_feed_concat(spec_feed(st, a[0]).0, a.drop_first(), b);
    }
}

proof fn lemma_run_feed_tensors(st: CollectorV, g: Seq<TensorV>)
    ensures
        spec_run_feed(st, tensor_events(g)).expected == st.expected,
        spec_run_feed(st, tensor_events(g)).outputs == st.outputs,
        spec_run_feed(st, tensor_events(g)).current == st.current + g,
    decreases g.len(),
{
    if g.len() == 0 {
        assert(tensor_events(g) =~= Seq::<DataMsgV>::empty());
        assert(st.current + g =~= st.current);
    } else {
        let st1 = spec_feed(st, tensor_events(g)[0]).0;
        assert(tensor_events(g)[0] == DataMsgV::Tensor(g[0]));
        assert(st1.current == st.current.push(g[0]));
        assert(tensor_events(g).drop_first() =~= tensor_events(g.drop_first()));
        lemma_run_feed_tensors(st1, g.drop_first());
        assert(st.current.push(g[0]) + g.drop_first() =~= st.current + g);
    }
}

proof fn lemma_run_feed_group(st: CollectorV, g: Seq<TensorV>)
    requires
        st.current.len() == 0,
    ensures
        spec_run_feed(st, group_events(g)).expected == st.expected,
        spec_run_feed(st, group_events(g)).outputs == st.outputs.push(g),
        spec_run_feed(st, group_events(g)).current.len() == 0,
{
    let endmsg = DataMsgV::Data(crate::tensor::end_marker_bytes());
    assert(group_events(g) =~= tensor_events(g) + seq![endmsg]);
    lemma_run_feed_concat(st, tensor_events(g), seq![endmsg]);
    lemma_run_feed_tensors(st, g);
    let st1 = spec_run_feed(st, tensor_events(g));
    assert(st1.current =~= g);
    assert(seq![endmsg].drop_first() =~= Seq::<DataMsgV>::empty());
    let st2 = spec_feed(st1, endmsg).0;
    assert(spec_run_feed(st1, seq![endmsg]) == spec_run_feed(st2, Seq::<DataMsgV>::empty()));
    assert(st2.outputs == st.outputs.push(g));
}

proof fn lemma_run_feed_groups(st: CollectorV, groups: Seq<Seq<TensorV>>)
    requires
        st.current.len() == 0,
    ensures
        spec_run_feed(st, batch_events(groups)).expected == st.expected,
        spec_run_feed(st, batch_events(groups)).outputs == st.outputs + groups,
        spec_run_feed(st, batch_events(groups)).current.len() == 0,
    decreases groups.len(),
{
    if groups.len() == 0 {
        assert(batch_events(groups) =~= Seq::<DataMsgV>::empty());
        assert(st.outputs + groups =~= st.outputs);
    } else {
        lemma_run_feed_concat(st, group_events(groups[0]), batch_events(groups.drop_first()));
        lemma_run_feed_group(st, groups[0]);
        let st1 = spec_run_feed(st, group_events(groups[0]));
        lemma_run_feed_groups(st1, groups.drop_first());
        assert(st.outputs.push(groups[0]) + groups.drop_first() =~= st.outputs + groups);
    }
}

/// Order preservation on the data path: a collector fed the event stream
/// of micro-batch groups — each group's tensors, then `END`, in push
/// order — ends with exactly those groups as its outputs, in the same
/// order.
pub proof fn law_collector_preserves_order(expected: u32, groups: Seq<Seq<TensorV>>)
    ensures
        spec_run_feed(
            CollectorV {
                expected,
                outputs: Seq::<Seq<TensorV>>::empty(),
                current: Seq::<TensorV>::empty(),
            },
            batch_events(groups),
        ).outputs == groups,
{
    let st = CollectorV {
        expected,
        outputs: Seq::<Seq<TensorV>>::empty(),
        current: Seq::<TensorV>::empty(),
    };
    lemma_run_feed_groups(st, groups);
    assert(Seq::<Seq<TensorV>>::empty() + groups =~= groups);
}

} // verus!
