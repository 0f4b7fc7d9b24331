//! The wire protocol between orchestrator and stages.
//!
//! Two tagged sum types travel as opaque byte payloads on each stage's
//! secure control channel. The encoding is deterministic (the spec-level
//! encoder is a function of the message alone), self-describing by a
//! leading tag byte, and round-trip exact; an unknown tag or malformed
//! payload is a fatal protocol error. (The data channels carry tensors
//! and two in-band byte markers instead; those live with the tensor
//! types.)

use vstd::prelude::*;

use crate::codec::{
    dec_bool, dec_bytes, dec_str, dec_u32, dec_u64, dec_usize, enc_bool, enc_bytes, enc_str,
    enc_u32, enc_u64, enc_usize, lemma_dec_bool_enc, lemma_dec_bytes_enc, lemma_dec_str_enc,
    lemma_dec_u32_enc, lemma_dec_u64_enc, lemma_dec_usize_enc, spec_dec_bool, spec_dec_bytes,
    spec_dec_str, spec_dec_u32, spec_dec_u64, spec_dec_usize, spec_enc_bool, spec_enc_bytes,
    spec_enc_str, spec_enc_u32, spec_enc_u64, spec_enc_usize, suffix_from, wf_bytes, wf_str,
};
use crate::error::PipelineError;
use vstd::bytes::{lemma_auto_spec_u32_to_from_le_bytes, lemma_auto_spec_u64_to_from_le_bytes};

verus! {

/// Messages sent from the orchestrator to a stage over the control
/// channel.
#[derive(Debug)]
pub enum OrchestratorMsg {
    /// Initialize the stage with its encoded spec and activation format.
    Init { stage_spec: Vec<u8>, activation_spec: Vec<u8>, num_stages: usize },
    /// Tell the stage to establish its data channels.
    EstablishDataChannels { has_upstream: bool, has_downstream: bool },
    /// Start processing a new inference request.
    StartRequest { request_id: u64, num_micro_batches: u32, seq_len: u32 },
    /// Abort an in-progress request.
    AbortRequest { request_id: u64, reason: String },
    /// Shut down the stage gracefully.
    Shutdown,
    /// Health check ping.
    Ping { seq: u64 },
}

/// Messages sent from a stage back to the orchestrator over the control
/// channel.
#[derive(Debug)]
pub enum StageMsg {
    /// Stage has finished initialization and is ready.
    Ready { stage_idx: usize },
    /// Data channels have been established.
    DataChannelsReady { stage_idx: usize },
    /// Request completed successfully.
    RequestDone { request_id: u64 },
    /// Request failed with an error.
    RequestError { request_id: u64, error: String },
    /// Health check pong.
    Pong { seq: u64 },
    /// Stage is shutting down.
    ShuttingDown { stage_idx: usize },
}

/// Mathematical shape of an orchestrator message.
pub ghost enum OrchestratorMsgV {
    Init { stage_spec: Seq<u8>, activation_spec: Seq<u8>, num_stages: usize },
    EstablishDataChannels { has_upstream: bool, has_downstream: bool },
    StartRequest { request_id: u64, num_micro_batches: u32, seq_len: u32 },
    AbortRequest { request_id: u64, reason: Seq<char> },
    Shutdown,
    Ping { seq: u64 },
}

/// Mathematical shape of a stage message.
pub ghost enum StageMsgV {
    Ready { stage_idx: usize },
    DataChannelsReady { stage_idx: usize },
    RequestDone { request_id: u64 },
    RequestError { request_id: u64, error: Seq<char> },
    Pong { seq: u64 },
    ShuttingDown { stage_idx: usize },
}

impl View for OrchestratorMsg {
    type V = OrchestratorMsgV;

    open spec fn view(&self) -> OrchestratorMsgV {
        match self {
            OrchestratorMsg::Init { stage_spec, activation_spec, num_stages } =>
                OrchestratorMsgV::Init {
                    stage_spec: stage_spec@,
                    activation_spec: activation_spec@,
                    num_stages: *num_stages,
                },
            OrchestratorMsg::EstablishDataChannels { has_upstream, has_downstream } =>
                OrchestratorMsgV::EstablishDataChannels {
                    has_upstream: *has_upstream,
                    has_downstream: *has_downstream,
                },
            OrchestratorMsg::StartRequest { request_id, num_micro_batches, seq_len } =>
                OrchestratorMsgV::StartRequest {
                    request_id: *request_id,
                    num_micro_batches: *num_micro_batches,
                    seq_len: *seq_len,
                },
            OrchestratorMsg::AbortRequest { request_id, reason } =>
                OrchestratorMsgV::AbortRequest { request_id: *request_id, reason: reason@ },
            OrchestratorMsg::Shutdown => OrchestratorMsgV::Shutdown,
            OrchestratorMsg::Ping { seq } => OrchestratorMsgV::Ping { seq: *seq },
        }
    }
}

impl View for StageMsg {
    type V = StageMsgV;

    open spec fn view(&self) -> StageMsgV {
        match self {
            StageMsg::Ready { stage_idx } => StageMsgV::Ready { stage_idx: *stage_idx },
            StageMsg::DataChannelsReady { stage_idx } => StageMsgV::DataChannelsReady {
                stage_idx: *stage_idx,
            },
            StageMsg::RequestDone { request_id } => StageMsgV::RequestDone {
                request_id: *request_id,
            },
            StageMsg::RequestError { request_id, error } => StageMsgV::RequestError {
                request_id: *request_id,
                error: error@,
            },
            StageMsg::Pong { seq } => StageMsgV::Pong { seq: *seq },
            StageMsg::ShuttingDown { stage_idx } => StageMsgV::ShuttingDown {
                stage_idx: *stage_idx,
            },
        }
    }
}

/// An orchestrator message is encodable when its variable-length fields
/// fit their length prefixes; every message held in memory is.
pub open spec fn wf_orch_msg(v: OrchestratorMsgV) -> bool {
    match v {
        OrchestratorMsgV::Init { stage_spec, activation_spec, .. } => wf_bytes(stage_spec)
            && wf_bytes(activation_spec),
        OrchestratorMsgV::AbortRequest { reason, .. } => wf_str(reason),
        _ => true,
    }
}

/// A stage message is encodable when its variable-length fields fit their
/// length prefixes; every message held in memory is.
pub open spec fn wf_stage_msg(v: StageMsgV) -> bool {
    match v {
        StageMsgV::RequestError { error, .. } => wf_str(error),
        _ => true,
    }
}

/// Deterministic encoding of an orchestrator message: a tag byte, then
/// the variant's fields in order.
pub open spec fn spec_enc_orch_msg(v: OrchestratorMsgV) -> Seq<u8> {
    match v {
        OrchestratorMsgV::Init { stage_spec, activation_spec, num_stages } => seq![1u8]
            + spec_enc_bytes(stage_spec) + spec_enc_bytes(activation_spec) + spec_enc_usize(
            num_stages,
        ),
        OrchestratorMsgV::EstablishDataChannels { has_upstream, has_downstream } => seq![2u8]
            + spec_enc_bool(has_upstream) + spec_enc_bool(has_downstream),
        OrchestratorMsgV::StartRequest { request_id, num_micro_batches, seq_len } => seq![3u8]
            + spec_enc_u64(request_id) + spec_enc_u32(num_micro_batches) + spec_enc_u32(seq_len),
        OrchestratorMsgV::AbortRequest { request_id, reason } => seq![4u8] + spec_enc_u64(
            request_id,
        ) + spec_enc_str(reason),
        OrchestratorMsgV::Shutdown => seq![5u8],
        OrchestratorMsgV::Ping { seq } => seq![6u8] + spec_enc_u64(seq),
    }
}

/// Decode an orchestrator message; the whole buffer must be consumed.
pub open spec fn spec_dec_orch_msg(s: Seq<u8>) -> Option<OrchestratorMsgV> {
    if s.len() < 1 {
        None
    } else {
        let r0 = suffix_from(s, 1);
        if s[0] == 1u8 {
            match spec_dec_bytes(r0) {
                Some((stage_spec, n1)) => {
                    let r1 = suffix_from(r0, n1);
                    match spec_dec_bytes(r1) {
                        Some((activation_spec, n2)) => {
                            let r2 = suffix_from(r1, n2);
                            match spec_dec_usize(r2) {
                                Some((num_stages, n3)) => if n3 == r2.len() {
                                    Some(
                                        OrchestratorMsgV::Init {
                                            stage_spec,
                                            activation_spec,
                                            num_stages,
                                        },
                                    )
                                } else {
                                    None
                                },
                                None => None,
                            }
                        },
                        None => None,
                    }
                },
                None => None,
            }
        } else if s[0] == 2u8 {
            match spec_dec_bool(r0) {
                Some((has_upstream, n1)) => {
                    let r1 = suffix_from(r0, n1);
                    match spec_dec_bool(r1) {
                        Some((has_downstream, n2)) => if n2 == r1.len() {
                            Some(
                                OrchestratorMsgV::EstablishDataChannels {
                                    has_upstream,
                                    has_downstream,
                                },
                            )
                        } else {
                            None
                        },
                        None => None,
                    }
                },
                None => None,
            }
        } else if s[0] == 3u8 {
            match spec_dec_u64(r0) {
                Some((request_id, n1)) => {
                    let r1 = suffix_from(r0, n1);
                    match spec_dec_u32(r1) {
                        Some((num_micro_batches, n2)) => {
                            let r2 = suffix_from(r1, n2);
                            match spec_dec_u32(r2) {
                                Some((seq_len, n3)) => if n3 == r2.len() {
                                    Some(
                                        OrchestratorMsgV::StartRequest {
                                            request_id,
                                            num_micro_batches,
                                            seq_len,
                                        },
                                    )
                                } else {
                                    None
                                },
                                None => None,
                            }
                        },
                        None => None,
                    }
                },
                None => None,
            }
        } else if s[0] == 4u8 {
            match spec_dec_u64(r0) {
                Some((request_id, n1)) => {
                    let r1 = suffix_from(r0, n1);
                    match spec_dec_str(r1) {
                        Some((reason, n2)) => if n2 == r1.len() {
                            Some(OrchestratorMsgV::AbortRequest { request_id, reason })
                        } else {
                            None
                        },
                        None => None,
                    }
                },
                None => None,
            }
        } else if s[0] == 5u8 {
            if r0.len() == 0 {
                Some(OrchestratorMsgV::Shutdown)
            } else {
                None
            }
        } else if s[0] == 6u8 {
            match spec_dec_u64(r0) {
                Some((seq, n1)) => if n1 == r0.len() {
                    Some(OrchestratorMsgV::Ping { seq })
                } else {
                    None
                },
                None => None,
            }
        } else {
            None
        }
    }
}

/// Deterministic encoding of a stage message: a tag byte, then the
/// variant's fields in order.
pub open spec fn spec_enc_stage_msg(v: StageMsgV) -> Seq<u8> {
    match v {
        StageMsgV::Ready { stage_idx } => seq![1u8] + spec_enc_usize(stage_idx),
        StageMsgV::DataChannelsReady { stage_idx } => seq![2u8] + spec_enc_usize(stage_idx),
        StageMsgV::RequestDone { request_id } => seq![3u8] + spec_enc_u64(request_id),
        StageMsgV::RequestError { request_id, error } => seq![4u8] + spec_enc_u64(request_id)
            + spec_enc_str(error),
        StageMsgV::Pong { seq } => seq![5u8] + spec_enc_u64(seq),
        StageMsgV::ShuttingDown { stage_idx } => seq![6u8] + spec_enc_usize(stage_idx),
    }
}

/// Decode a stage message; the whole buffer must be consumed.
pub open spec fn spec_dec_stage_msg(s: Seq<u8>) -> Option<StageMsgV> {
    if s.len() < 1 {
        None
    } else {
        let r0 = suffix_from(s, 1);
        if s[0] == 1u8 {
            match spec_dec_usize(r0) {
                Some((stage_idx, n1)) => if n1 == r0.len() {
                    Some(StageMsgV::Ready { stage_idx })
                } else {
                    None
                },
                None => None,
            }
        } else if s[0] == 2u8 {
            match spec_dec_usize(r0) {
                Some((stage_idx, n1)) => if n1 == r0.len() {
                    Some(StageMsgV::DataChannelsReady { stage_idx })
                } else {
                    None
                },
                None => None,
            }
        } else if s[0] == 3u8 {
            match spec_dec_u64(r0) {
                Some((request_id, n1)) => if n1 == r0.len() {
                    Some(StageMsgV::RequestDone { request_id })
                } else {
                    None
                },
                None => None,
            }
        } else if s[0] == 4u8 {
            match spec_dec_u64(r0) {
                Some((request_id, n1)) => {
                    let r1 = suffix_from(r0, n1);
                    match spec_dec_str(r1) {
                        Some((error, n2)) => if n2 == r1.len() {
                            Some(StageMsgV::RequestError { request_id, error })
                        } else {
                            None
                        },
                        None => None,
                    }
                },
                None => None,
            }
        } else if s[0] == 5u8 {
            match spec_dec_u64(r0) {
                Some((seq, n1)) => if n1 == r0.len() {
                    Some(StageMsgV::Pong { seq })
                } else {
                    None
                },
                None => None,
            }
        } else if s[0] == 6u8 {
            match spec_dec_usize(r0) {
                Some((stage_idx, n1)) => if n1 == r0.len() {
                    Some(StageMsgV::ShuttingDown { stage_idx })
                } else {
                    None
                },
                None => None,
            }
        } else {
            None
        }
    }
}

/// Round trip: decoding an encoded orchestrator message yields the
/// message back, for every control message. The encoding itself is a
/// spec-level function of the message alone, so it is deterministic.
pub proof fn law_orch_msg_round_trip(v: OrchestratorMsgV)
    requires
        wf_orch_msg(v),
    ensures
        spec_dec_orch_msg(spec_enc_orch_msg(v)) == Some(v),
{
    lemma_auto_spec_u64_to_from_le_bytes();
    lemma_auto_spec_u32_to_from_le_bytes();
    let s = spec_enc_orch_msg(v);
    let empty = Seq::<u8>::empty();
    match v {
        OrchestratorMsgV::Init { stage_spec, activation_spec, num_stages } => {
            let e1 = spec_enc_bytes(stage_spec);
            let e2 = spec_enc_bytes(activation_spec);
            let e3 = spec_enc_usize(num_stages);
            let r0 = suffix_from(s, 1);
            assert(r0 =~= e1 + (e2 + e3));
            lemma_dec_bytes_enc(stage_spec, e2 + e3);
            let n1 = 8 + stage_spec.len() as int;
            let r1 = suffix_from(r0, n1);
            assert(r1 =~= e2 + e3);
            lemma_dec_bytes_enc(activation_spec, e3);
            let n2 = 8 + activation_spec.len() as int;
            let r2 = suffix_from(r1, n2);
            assert(r2 =~= e3 + empty);
            lemma_dec_usize_enc(num_stages, empty);
            assert(r2.len() == 8);
        },
        OrchestratorMsgV::EstablishDataChannels { has_upstream, has_downstream } => {
            let e1 = spec_enc_bool(has_upstream);
            let e2 = spec_enc_bool(has_downstream);
            let r0 = suffix_from(s, 1);
            assert(r0 =~= e1 + e2);
            lemma_dec_bool_enc(has_upstream, e2);
            let r1 = suffix_from(r0, 1);
            assert(r1 =~= e2 + empty);
            lemma_dec_bool_enc(has_downstream, empty);
            assert(r1.len() == 1);
        },
        OrchestratorMsgV::StartRequest { request_id, num_micro_batches, seq_len } => {
            let e1 = spec_enc_u64(request_id);
            let e2 = spec_enc_u32(num_micro_batches);
            let e3 = spec_enc_u32(seq_len);
            let r0 = suffix_from(s, 1);
            assert(r0 =~= e1 + (e2 + e3));
            lemma_dec_u64_enc(request_id, e2 + e3);
            let r1 = suffix_from(r0, 8);
            assert(r1 =~= e2 + e3);
            lemma_dec_u32_enc(num_micro_batches, e3);
            let r2 = suffix_from(r1, 4);
            assert(r2 =~= e3 + empty);
            lemma_dec_u32_enc(seq_len, empty);
            assert(r2.len() == 4);
        },
        OrchestratorMsgV::AbortRequest { request_id, reason } => {
            let e1 = spec_enc_u64(request_id);
            let e2 = spec_enc_str(reason);
            let r0 = suffix_from(s, 1);
            assert(r0 =~= e1 + e2);
            lemma_dec_u64_enc(request_id, e2);
            let r1 = suffix_from(r0, 8);
            assert(r1 =~= e2 + empty);
            lemma_dec_str_enc(reason, empty);
            assert(r1.len() == e2.len());
        },
        OrchestratorMsgV::Shutdown => {
            assert(suffix_from(s, 1).len() == 0);
        },
        OrchestratorMsgV::Ping { seq } => {
            let e1 = spec_enc_u64(seq);
            let r0 = suffix_from(s, 1);
            assert(r0 =~= e1 + empty);
            lemma_dec_u64_enc(seq, empty);
            assert(r0.len() == 8);
        },
    }
}

/// Round trip: decoding an encoded stage message yields the message
/// back, for every control message.
pub proof fn law_stage_msg_round_trip(v: StageMsgV)
    requires
        wf_stage_msg(v),
    ensures
        spec_dec_stage_msg(spec_enc_stage_msg(v)) == Some(v),
{
    lemma_auto_spec_u64_to_from_le_bytes();
    let s = spec_enc_stage_msg(v);
    let empty = Seq::<u8>::empty();
    match v {
        StageMsgV::Ready { stage_idx } => {
            let r0 = suffix_from(s, 1);
            assert(r0 =~= spec_enc_usize(stage_idx) + empty);
            lemma_dec_usize_enc(stage_idx, empty);
            assert(r0.len() == 8);
        },
        StageMsgV::DataChannelsReady { stage_idx } => {
            let r0 = suffix_from(s, 1);
            assert(r0 =~= spec_enc_usize(stage_idx) + empty);
            lemma_dec_usize_enc(stage_idx, empty);
            assert(r0.len() == 8);
        },
        StageMsgV::RequestDone { request_id } => {
            let r0 = suffix_from(s, 1);
            assert(r0 =~= spec_enc_u64(request_id) + empty);
            lemma_dec_u64_enc(request_id, empty);
            assert(r0.len() == 8);
        },
        StageMsgV::RequestError { request_id, error } => {
            let e1 = spec_enc_u64(request_id);
            let e2 = spec_enc_str(error);
            let r0 = suffix_from(s, 1);
            assert(r0 =~= e1 + e2);
            lemma_dec_u64_enc(request_id, e2);
            let r1 = suffix_from(r0, 8);
            assert(r1 =~= e2 + empty);
            lemma_dec_str_enc(error, empty);
            assert(r1.len() == e2.len());
        },
        StageMsgV::Pong { seq } => {
            let r0 = suffix_from(s, 1);
            assert(r0 =~= spec_enc_u64(seq) + empty);
            lemma_dec_u64_enc(seq, empty);
            assert(r0.len() == 8);
        },
        StageMsgV::ShuttingDown { stage_idx } => {
            let r0 = suffix_from(s, 1);
            assert(r0 =~= spec_enc_usize(stage_idx) + empty);
            lemma_dec_usize_enc(stage_idx, empty);
            assert(r0.len() == 8);
        },
    }
}

impl OrchestratorMsg {
    /// Serialize to tagged bytes for sending over a secure channel.
    pub fn to_bytes(&self) -> (r: Vec<u8>)
        ensures
            r@ == spec_enc_orch_msg(self@),
            spec_dec_orch_msg(r@) == Some(self@),
    {
        let mut buf: Vec<u8> = Vec::new();
        match self {
            OrchestratorMsg::Init { stage_spec, activation_spec, num_stages } => {
                buf.push(1u8);
                enc_bytes(&mut buf, stage_spec.as_slice());
                enc_bytes(&mut buf, activation_spec.as_slice());
                enc_usize(&mut buf, *num_stages);
            },
            OrchestratorMsg::EstablishDataChannels { has_upstream, has_downstream } => {
                buf.push(2u8);
                enc_bool(&mut buf, *has_upstream);
                enc_bool(&mut buf, *has_downstream);
            },
            OrchestratorMsg::StartRequest { request_id, num_micro_batches, seq_len } => {
                buf.push(3u8);
                enc_u64(&mut buf, *request_id);
                enc_u32(&mut buf, *num_micro_batches);
                enc_u32(&mut buf, *seq_len);
            },
            OrchestratorMsg::AbortRequest { request_id, reason } => {
                buf.push(4u8);
                enc_u64(&mut buf, *request_id);
                enc_str(&mut buf, reason.as_str());
            },
            OrchestratorMsg::Shutdown => {
                buf.push(5u8);
            },
            OrchestratorMsg::Ping { seq } => {
                buf.push(6u8);
                enc_u64(&mut buf, *seq);
            },
        }
        assert(buf@ =~= spec_enc_orch_msg(self@));
        let _total: usize = buf.len();
        proof {
            lemma_auto_spec_u64_to_from_le_bytes();
            assert(wf_orch_msg(self@));
            law_orch_msg_round_trip(self@);
        }
        buf
    }

    /// Deserialize from bytes received over a secure channel.
    pub fn from_bytes(data: &[u8]) -> (r: Result<Self, PipelineError>)
        ensures
            match spec_dec_orch_msg(data@) {
                Some(v) => r matches Ok(m) && m@ == v,
                None => r matches Err(e) && e is Serialization,
            },
    {
        let n = data.len();
        if n < 1 {
            return Err(PipelineError::Serialization(malformed_note()));
        }
        let tag = data[0];
        let ghost r0 = suffix_from(data@, 1);
        if tag == 1u8 {
            match dec_bytes(data, 1) {
                Some((stage_spec, p1)) => {
                    proof {
                        assert(suffix_from(r0, p1 - 1) =~= suffix_from(data@, p1 as int));
                    }
                    match dec_bytes(data, p1) {
                        Some((activation_spec, p2)) => {
                            proof {
                                assert(suffix_from(suffix_from(data@, p1 as int), p2 - p1) =~=
                                    suffix_from(data@, p2 as int));
                            }
                            match dec_usize(data, p2) {
                                Some((num_stages, p3)) => if p3 == n {
                                    Ok(
                                        OrchestratorMsg::Init {
                                            stage_spec,
                                            activation_spec,
                                            num_stages,
                                        },
                                    )
                                } else {
                                    Err(PipelineError::Serialization(malformed_note()))
                                },
                                None => Err(PipelineError::Serialization(malformed_note())),
                            }
                        },
                        None => Err(PipelineError::Serialization(malformed_note())),
                    }
                },
                None => Err(PipelineError::Serialization(malformed_note())),
            }
        } else if tag == 2u8 {
            match dec_bool(data, 1) {
                Some((has_upstream, p1)) => {
                    proof {
                        assert(suffix_from(r0, p1 - 1) =~= suffix_from(data@, p1 as int));
                    }
                    match dec_bool(data, p1) {
                        Some((has_downstream, p2)) => if p2 == n {
                            Ok(OrchestratorMsg::EstablishDataChannels {
                                has_upstream,
                                has_downstream,
                            })
                        } else {
                            Err(PipelineError::Serialization(malformed_note()))
                        },
                        None => Err(PipelineError::Serialization(malformed_note())),
                    }
                },
                None => Err(PipelineError::Serialization(malformed_note())),
            }
        } else if tag == 3u8 {
            match dec_u64(data, 1) {
                Some((request_id, p1)) => {
                    proof {
                        assert(suffix_from(r0, p1 - 1) =~= suffix_from(data@, p1 as int));
                    }
                    match dec_u32(data, p1) {
                        Some((num_micro_batches, p2)) => {
                            proof {
                                assert(suffix_from(suffix_from(data@, p1 as int), p2 - p1) =~=
                                    suffix_from(data@, p2 as int));
                            }
                            match dec_u32(data, p2) {
                                Some((seq_len, p3)) => if p3 == n {
                                    Ok(
                                        OrchestratorMsg::StartRequest {
                                            request_id,
                                            num_micro_batches,
                                            seq_len,
                                        },
                                    )
                                } else {
                                    Err(PipelineError::Serialization(malformed_note()))
                                },
                                None => Err(PipelineError::Serialization(malformed_note())),
                            }
                        },
                        None => Err(PipelineError::Serialization(malformed_note())),
                    }
                },
                None => Err(PipelineError::Serialization(malformed_note())),
            }
        } else if tag == 4u8 {
            match dec_u64(data, 1) {
                Some((request_id, p1)) => {
                    proof {
                        assert(suffix_from(r0, p1 - 1) =~= suffix_from(data@, p1 as int));
                    }
                    match dec_str(data, p1) {
                        Some((reason, p2)) => if p2 == n {
                            Ok(OrchestratorMsg::AbortRequest { request_id, reason })
                        } else {
                            Err(PipelineError::Serialization(malformed_note()))
                        },
                        None => Err(PipelineError::Serialization(malformed_note())),
                    }
                },
                None => Err(PipelineError::Serialization(malformed_note())),
            }
        } else if tag == 5u8 {
            if n == 1 {
                Ok(OrchestratorMsg::Shutdown)
            } else {
                Err(PipelineError::Serialization(malformed_note()))
            }
        } else if tag == 6u8 {
            match dec_u64(data, 1) {
                Some((seq, p1)) => if p1 == n {
                    Ok(OrchestratorMsg::Ping { seq })
                } else {
                    Err(PipelineError::Serialization(malformed_note()))
                },
                None => Err(PipelineError::Serialization(malformed_note())),
            }
        } else {
            Err(PipelineError::Serialization(malformed_note()))
        }
    }
}

impl StageMsg {
    /// Serialize to tagged bytes for sending over a secure channel.
    pub fn to_bytes(&self) -> (r: Vec<u8>)
        ensures
            r@ == spec_enc_stage_msg(self@),
            spec_dec_stage_msg(r@) == Some(self@),
    {
        let mut buf: Vec<u8> = Vec::new();
        match self {
            StageMsg::Ready { stage_idx } => {
                buf.push(1u8);
                enc_usize(&mut buf, *stage_idx);
            },
            StageMsg::DataChannelsReady { stage_idx } => {
                buf.push(2u8);
                enc_usize(&mut buf, *stage_idx);
            },
            StageMsg::RequestDone { request_id } => {
                buf.push(3u8);
                enc_u64(&mut buf, *request_id);
            },
            StageMsg::RequestError { request_id, error } => {
                buf.push(4u8);
                enc_u64(&mut buf, *request_id);
                enc_str(&mut buf, error.as_str());
            },
            StageMsg::Pong { seq } => {
                buf.push(5u8);
                enc_u64(&mut buf, *seq);
            },
            StageMsg::ShuttingDown { stage_idx } => {
                buf.push(6u8);
                enc_usize(&mut buf, *stage_idx);
            },
        }
        assert(buf@ =~= spec_enc_stage_msg(self@));
        let _total: usize = buf.len();
        proof {
            lemma_auto_spec_u64_to_from_le_bytes();
            assert(wf_stage_msg(self@));
            law_stage_msg_round_trip(self@);
        }
        buf
    }

    /// Deserialize from bytes received over a secure channel.
    pub fn from_bytes(data: &[u8]) -> (r: Result<Self, PipelineError>)
        ensures
            match spec_dec_stage_msg(data@) {
                Some(v) => r matches Ok(m) && m@ == v,
                None => r matches Err(e) && e is Serialization,
            },
    {
        let n = data.len();
        if n < 1 {
            return Err(PipelineError::Serialization(malformed_note()));
        }
        let tag = data[0];
        let ghost r0 = suffix_from(data@, 1);
        if tag == 1u8 {
            match dec_usize(data, 1) {
                Some((stage_idx, p1)) => if p1 == n {
                    Ok(StageMsg::Ready { stage_idx })
                } else {
                    Err(PipelineError::Serialization(malformed_note()))
                },
                None => Err(PipelineError::Serialization(malformed_note())),
            }
        } else if tag == 2u8 {
            match dec_usize(data, 1) {
                Some((stage_idx, p1)) => if p1 == n {
                    Ok(StageMsg::DataChannelsReady { stage_idx })
                } else {
                    Err(PipelineError::Serialization(malformed_note()))
                },
                None => Err(PipelineError::Serialization(malformed_note())),
            }
        } else if tag == 3u8 {
            match dec_u64(data, 1) {
                Some((request_id, p1)) => if p1 == n {
                    Ok(StageMsg::RequestDone { request_id })
                } else {
                    Err(PipelineError::Serialization(malformed_note()))
                },
                None => Err(PipelineError::Serialization(malformed_note())),
            }
        } else if tag == 4u8 {
            match dec_u64(data, 1) {
                Some((request_id, p1)) => {
                    proof {
                        assert(suffix_from(r0, p1 - 1) =~= suffix_from(data@, p1 as int));
                    }
                    match dec_str(data, p1) {
                        Some((error, p2)) => if p2 == n {
                            Ok(StageMsg::RequestError { request_id, error })
                        } else {
                            Err(PipelineError::Serialization(malformed_note()))
                        },
                        None => Err(PipelineError::Serialization(malformed_note())),
                    }
                },
                None => Err(PipelineError::Serialization(malformed_note())),
            }
        } else if tag == 5u8 {
            match dec_u64(data, 1) {
                Some((seq, p1)) => if p1 == n {
                    Ok(StageMsg::Pong { seq })
                } else {
                    Err(PipelineError::Serialization(malformed_note()))
                },
                None => Err(PipelineError::Serialization(malformed_note())),
            }
        } else if tag == 6u8 {
            match dec_usize(data, 1) {
                Some((stage_idx, p1)) => if p1 == n {
                    Ok(StageMsg::ShuttingDown { stage_idx })
                } else {
                    Err(PipelineError::Serialization(malformed_note()))
                },
                None => Err(PipelineError::Serialization(malformed_note())),
            }
        } else {
            Err(PipelineError::Serialization(malformed_note()))
        }
    }
}

/// The note carried by a serialization error.
fn malformed_note() -> (r: String)
    ensures
        r@ == "malformed control message"@,
{
    "malformed control message".to_owned()
}

} // verus!
