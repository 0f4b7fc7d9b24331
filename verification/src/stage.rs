//! The stage runtime's decision core.
//!
//! A stage accepts a control channel, takes `Init`, runs the executor's
//! initialisation, checks weight hashes, answers `Ready`, waits for
//! `EstablishDataChannels`, brings up its data channels, and then serves
//! the process loop. The channel I/O and the executor live with the
//! caller; what each control message means at each phase — and which
//! micro-batches a request forwards, in which order — is decided and
//! proved here.

use vstd::prelude::*;

use crate::error::PipelineError;
use crate::manifest::{ActivationSpec, StageSpec};
use crate::manifest_wire::{spec_dec_activation_exact, spec_dec_stage_spec_exact};
use crate::protocol::{OrchestratorMsg, OrchestratorMsgV, StageMsg, StageMsgV};
use crate::scheduler::{spec_step_ops, wf_schedule, PipeOp, StageSchedule};

verus! {

/// Stage lifecycle state.
#[derive(Debug, Clone, Copy, PartialEq, Eq, Structural)]
pub enum StagePhase {
    /// Waiting for `Init` on the fresh control channel.
    AwaitInit,
    /// Initialised and `Ready` sent; waiting for `EstablishDataChannels`.
    AwaitEstablish,
    /// Data channels up; serving the process loop.
    Processing,
    /// Told to shut down; the loop has exited.
    Done,
}

/// The stage runtime's verified core: the negotiated specs and the
/// lifecycle phase. Channels and the executor live with the caller.
pub struct StageCore {
    pub stage_idx: usize,
    pub num_stages: usize,
    pub stage_spec: Option<StageSpec>,
    pub activation_spec: Option<ActivationSpec>,
    pub phase: StagePhase,
}

/// Outcome of the weight-hash comparison.
#[derive(Debug, Clone, Copy, PartialEq, Eq, Structural)]
pub enum WeightHashCheck {
    /// No hashes declared, or all declared hashes match.
    Verified,
    /// The executor returned a different number of hashes than the
    /// manifest declares.
    CountMismatch { declared: usize, got: usize },
    /// The hash at this index differs.
    ValueMismatch { index: usize },
}

/// The first index at or after `i` where the declared and actual hashes
/// differ.
pub open spec fn first_hash_mismatch(d: Seq<Seq<char>>, a: Seq<Seq<char>>, i: int) -> Option<int>
    decreases d.len() - i,
{
    if i < 0 || i >= d.len() || i >= a.len() {
        None
    } else if d[i] != a[i] {
        Some(i)
    } else {
        first_hash_mismatch(d, a, i + 1)
    }
}

/// What the weight-hash comparison decides: nothing declared passes; a
/// count difference fails; otherwise the first differing index fails.
pub open spec fn spec_weight_hash_check(d: Seq<Seq<char>>, a: Seq<Seq<char>>) -> WeightHashCheck {
    if d.len() == 0 {
        WeightHashCheck::Verified
    } else if d.len() != a.len() {
        WeightHashCheck::CountMismatch { declared: d.len() as usize, got: a.len() as usize }
    } else if first_hash_mismatch(d, a, 0) is Some {
        WeightHashCheck::ValueMismatch { index: first_hash_mismatch(d, a, 0)->Some_0 as usize }
    } else {
        WeightHashCheck::Verified
    }
}

proof fn lemma_first_hash_mismatch_none(d: Seq<Seq<char>>, a: Seq<Seq<char>>, i: int)
    requires
        0 <= i,
        d.len() <= a.len(),
    ensures
        first_hash_mismatch(d, a, i) is None <==> (forall|j: int|
            i <= j < d.len() ==> #[trigger] d[j] == a[j]),
    decreases d.len() - i,
{
    if i < d.len() {
        lemma_first_hash_mismatch_none(d, a, i + 1);
    }
}

/// The check passes exactly when the manifest declares no hashes, or
/// declares as many as the executor returned and each one matches.
pub proof fn law_weight_hash_check_iff(d: Seq<Seq<char>>, a: Seq<Seq<char>>)
    ensures
        spec_weight_hash_check(d, a) == WeightHashCheck::Verified <==> (d.len() == 0 || (d.len()
            == a.len() && forall|j: int| 0 <= j < d.len() ==> #[trigger] d[j] == a[j])),
{
    if d.len() == a.len() {
        lemma_first_hash_mismatch_none(d, a, 0);
    }
}

/// Compare the manifest's declared weight hashes against the executor's,
/// element-wise and by count; nothing declared passes.
pub fn check_weight_hashes(declared: &Vec<String>, actual: &Vec<String>) -> (r: WeightHashCheck)
    ensures
        r == spec_weight_hash_check(declared.deep_view(), actual.deep_view()),
{
    let ghost d = declared.deep_view();
    let ghost a = actual.deep_view();
    let n = declared.len();
    if n == 0 {
        return WeightHashCheck::Verified;
    }
    if n != actual.len() {
        return WeightHashCheck::CountMismatch { declared: n, got: actual.len() };
    }
    let mut i: usize = 0;
    while i < n
        invariant
            n == d.len() == a.len(),
            d == declared.deep_view(),
            a == actual.deep_view(),
            n == declared@.len() == actual@.len(),
            0 <= i <= n,
            first_hash_mismatch(d, a, 0) == first_hash_mismatch(d, a, i as int),
        decreases n - i,
    {
        if declared[i] != actual[i] {
            return WeightHashCheck::ValueMismatch { index: i };
        }
        i = i + 1;
    }
    WeightHashCheck::Verified
}

impl StageCore {
    /// A fresh stage runtime core, waiting for `Init`.
    pub fn new() -> (r: Self)
        ensures
            r.phase == StagePhase::AwaitInit,
            r.stage_spec is None,
            r.activation_spec is None,
            r.stage_idx == 0,
            r.num_stages == 0,
    {
        StageCore {
            stage_idx: 0,
            num_stages: 0,
            stage_spec: None,
            activation_spec: None,
            phase: StagePhase::AwaitInit,
        }
    }

    /// Take the one `Init` message: decode and store the stage spec and
    /// activation spec. Any other message, or an undecodable payload, is
    /// a protocol error and changes nothing.
    pub fn on_init(&mut self, msg: &OrchestratorMsg) -> (r: Result<(), PipelineError>)
        requires
            old(self).phase == StagePhase::AwaitInit,
        ensures
            match msg@ {
                OrchestratorMsgV::Init { stage_spec, activation_spec, num_stages } => {
                    match (spec_dec_stage_spec_exact(stage_spec), spec_dec_activation_exact(
                        activation_spec,
                    )) {
                        (Some(sv), Some(av)) => {
                            &&& r is Ok
                            &&& final(self).phase == StagePhase::AwaitEstablish
                            &&& (final(self).stage_spec matches Some(s) && s@ == sv)
                            &&& (final(self).activation_spec matches Some(a) && a@ == av)
                            &&& final(self).stage_idx == sv.stage_idx
                            &&& final(self).num_stages == num_stages
                        },
                        _ => (r matches Err(e) && e is Protocol) && *final(self) == *old(self),
                    }
                },
                _ => (r matches Err(e) && e is Protocol) && *final(self) == *old(self),
            },
    {
        match msg {
            OrchestratorMsg::Init { stage_spec, activation_spec, num_stages } => {
                let sv = match StageSpec::from_bytes(stage_spec.as_slice()) {
                    Ok(sv) => sv,
                    Err(_) => {
                        return Err(
                            PipelineError::Protocol("undecodable stage spec in Init".to_owned()),
                        );
                    },
                };
                let av = match ActivationSpec::from_bytes(activation_spec.as_slice()) {
                    Ok(av) => av,
                    Err(_) => {
                        return Err(
                            PipelineError::Protocol(
                                "undecodable activation spec in Init".to_owned(),
                            ),
                        );
                    },
                };
                self.stage_idx = sv.stage_idx;
                self.num_stages = *num_stages;
                self.stage_spec = Some(sv);
                self.activation_spec = Some(av);
                self.phase = StagePhase::AwaitEstablish;
                Ok(())
            },
            _ => Err(PipelineError::Protocol("expected Init".to_owned())),
        }
    }

    /// The `Ready` announcement for this stage.
    pub fn ready_msg(&self) -> (r: StageMsg)
        ensures
            r@ == (StageMsgV::Ready { stage_idx: self.stage_idx }),
    {
        StageMsg::Ready { stage_idx: self.stage_idx }
    }

    /// The `DataChannelsReady` announcement for this stage.
    pub fn data_channels_ready_msg(&self) -> (r: StageMsg)
        ensures
            r@ == (StageMsgV::DataChannelsReady { stage_idx: self.stage_idx }),
    {
        StageMsg::DataChannelsReady { stage_idx: self.stage_idx }
    }

    /// The `ShuttingDown` announcement for this stage.
    pub fn shutting_down_msg(&self) -> (r: StageMsg)
        ensures
            r@ == (StageMsgV::ShuttingDown { stage_idx: self.stage_idx }),
    {
        StageMsg::ShuttingDown { stage_idx: self.stage_idx }
    }

    /// The data channels are up and confirmed: enter the process loop.
    pub fn mark_processing(&mut self)
        requires
            old(self).phase == StagePhase::AwaitEstablish,
        ensures
            *final(self) == (StageCore { phase: StagePhase::Processing, ..*old(self) }),
    {
        self.phase = StagePhase::Processing;
    }

    /// The process loop was told to shut down.
    pub fn mark_done(&mut self)
        ensures
            *final(self) == (StageCore { phase: StagePhase::Done, ..*old(self) }),
    {
        self.phase = StagePhase::Done;
    }
}

/// What one control message means while waiting for
/// `EstablishDataChannels`.
#[derive(Debug, Clone, Copy, PartialEq, Eq, Structural)]
pub enum EstablishAction {
    /// Establish the data channels with these flags.
    Proceed { has_upstream: bool, has_downstream: bool },
    /// A health ping: answer it and keep waiting.
    ReplyPong { seq: u64 },
    /// Out of protocol here.
    Unexpected,
}

/// The wait loop before the data phase answers pings and takes exactly
/// `EstablishDataChannels`; anything else is a protocol error.
pub open spec fn spec_establish_action(m: OrchestratorMsgV) -> EstablishAction {
    match m {
        OrchestratorMsgV::EstablishDataChannels { has_upstream, has_downstream } =>
            EstablishAction::Proceed { has_upstream, has_downstream },
        OrchestratorMsgV::Ping { seq } => EstablishAction::ReplyPong { seq },
        _ => EstablishAction::Unexpected,
    }
}

/// Classify one control message seen while waiting for
/// `EstablishDataChannels`.
pub fn establish_action(msg: &OrchestratorMsg) -> (r: EstablishAction)
    ensures
        r == spec_establish_action(msg@),
{
    match msg {
        OrchestratorMsg::EstablishDataChannels { has_upstream, has_downstream } =>
            EstablishAction::Proceed {
            has_upstream: *has_upstream,
            has_downstream: *has_downstream,
        },
        OrchestratorMsg::Ping { seq } => EstablishAction::ReplyPong { seq: *seq },
        _ => EstablishAction::Unexpected,
    }
}

/// What one control message means in the process loop, between requests.
#[derive(Debug, Clone, Copy, PartialEq, Eq, Structural)]
pub enum ProcessAction {
    /// Run this request through the schedule.
    RunRequest { request_id: u64, num_micro_batches: u32 },
    /// The request asks for more than the activation spec allows:
    /// refuse it, signal the data path, and stay usable.
    RejectRequest { request_id: u64, seq_len: u32, max_seq_len: u32 },
    /// A health ping: answer it.
    ReplyPong { seq: u64 },
    /// An abort with no request in progress: note it and go on.
    IgnoreAbort { request_id: u64 },
    /// Announce shutdown and leave the loop.
    ShutdownNow,
    /// Out of protocol here.
    Unexpected,
}

/// The process loop's decision table: a request within the sequence
/// bound runs; one over it is refused with the bound; pings are
/// answered; a stray abort is noted; shutdown ends the loop.
pub open spec fn spec_process_action(m: OrchestratorMsgV, max_seq_len: u32) -> ProcessAction {
    match m {
        OrchestratorMsgV::StartRequest { request_id, num_micro_batches, seq_len } => if seq_len
            > max_seq_len {
            ProcessAction::RejectRequest { request_id, seq_len, max_seq_len }
        } else {
            ProcessAction::RunRequest { request_id, num_micro_batches }
        },
        OrchestratorMsgV::AbortRequest { request_id, .. } => ProcessAction::IgnoreAbort {
            request_id,
        },
        OrchestratorMsgV::Ping { seq } => ProcessAction::ReplyPong { seq },
        OrchestratorMsgV::Shutdown => ProcessAction::ShutdownNow,
        _ => ProcessAction::Unexpected,
    }
}

/// A request whose sequence length exceeds the activation spec's bound
/// is refused, never run.
pub proof fn law_overlong_request_rejected(
    request_id: u64,
    num_micro_batches: u32,
    seq_len: u32,
    max_seq_len: u32,
)
    requires
        seq_len > max_seq_len,
    ensures
        spec_process_action(
            OrchestratorMsgV::StartRequest { request_id, num_micro_batches, seq_len },
            max_seq_len,
        ) == (ProcessAction::RejectRequest { request_id, seq_len, max_seq_len }),
{
}

/// Classify one control message in the process loop.
pub fn process_action(msg: &OrchestratorMsg, max_seq_len: u32) -> (r: ProcessAction)
    ensures
        r == spec_process_action(msg@, max_seq_len),
{
    match msg {
        OrchestratorMsg::StartRequest { request_id, num_micro_batches, seq_len } => {
            if *seq_len > max_seq_len {
                ProcessAction::RejectRequest {
                    request_id: *request_id,
                    seq_len: *seq_len,
                    max_seq_len,
                }
            } else {
                ProcessAction::RunRequest {
                    request_id: *request_id,
                    num_micro_batches: *num_micro_batches,
                }
            }
        },
        OrchestratorMsg::AbortRequest { request_id, .. } => ProcessAction::IgnoreAbort {
            request_id: *request_id,
        },
        OrchestratorMsg::Ping { seq } => ProcessAction::ReplyPong { seq: *seq },
        OrchestratorMsg::Shutdown => ProcessAction::ShutdownNow,
        _ => ProcessAction::Unexpected,
    }
}

/// What one control message means while a request is executing; the
/// forward future is dropped before any cancellation is acted on.
#[derive(Debug, Clone, Copy, PartialEq, Eq, Structural)]
pub enum InFlightAction {
    /// The orchestrator aborted the request: cancel the forward work and
    /// report the request as failed.
    CancelAbort { request_id: u64 },
    /// A health ping: answer it and keep the request running.
    ReplyPong { seq: u64 },
    /// Shut down: cancel the request and leave the loop.
    CancelShutdown,
    /// Unexpected here: note it and keep the request running.
    Continue,
}

/// The in-flight decision table: abort and shutdown cancel, pings are
/// answered, anything else is noted and the request keeps running.
pub open spec fn spec_inflight_action(m: OrchestratorMsgV) -> InFlightAction {
    match m {
        OrchestratorMsgV::AbortRequest { request_id, .. } => InFlightAction::CancelAbort {
            request_id,
        },
        OrchestratorMsgV::Ping { seq } => InFlightAction::ReplyPong { seq },
        OrchestratorMsgV::Shutdown => InFlightAction::CancelShutdown,
        _ => InFlightAction::Continue,
    }
}

/// Classify one control message seen while a request is executing.
pub fn inflight_action(msg: &OrchestratorMsg) -> (r: InFlightAction)
    ensures
        r == spec_inflight_action(msg@),
{
    match msg {
        OrchestratorMsg::AbortRequest { request_id, .. } => InFlightAction::CancelAbort {
            request_id: *request_id,
        },
        OrchestratorMsg::Ping { seq } => InFlightAction::ReplyPong { seq: *seq },
        OrchestratorMsg::Shutdown => InFlightAction::CancelShutdown,
        _ => InFlightAction::Continue,
    }
}

/// The micro-batches forwarded by a run of schedule steps, in order.
pub open spec fn spec_forwards(ops: Seq<Seq<PipeOp>>) -> Seq<u32>
    decreases ops.len(),
{
    if ops.len() == 0 {
        Seq::<u32>::empty()
    } else {
        spec_step_forwards(ops[0]) + spec_forwards(ops.drop_first())
    }
}

/// The micro-batches forwarded within one step.
pub open spec fn spec_step_forwards(step: Seq<PipeOp>) -> Seq<u32>
    decreases step.len(),
{
    if step.len() == 0 {
        Seq::<u32>::empty()
    } else {
        (match step[0] {
            PipeOp::Forward { micro_batch } => seq![micro_batch],
            _ => Seq::<u32>::empty(),
        }) + spec_step_forwards(step.drop_first())
    }
}

/// Extract, in order, the micro-batches a stage's schedule forwards.
pub fn forward_sequence(ss: &StageSchedule) -> (r: Vec<u32>)
    ensures
        r@ == spec_forwards(ss.ops.deep_view()),
{
    let mut out: Vec<u32> = Vec::new();
    let n = ss.ops.len();
    let ghost all = ss.ops.deep_view();
    proof {
        assert(all.skip(0) =~= all);
    }
    let mut t: usize = 0;
    while t < n
        invariant
            n == ss.ops@.len(),
            all == ss.ops.deep_view(),
            n == all.len(),
            0 <= t <= n,
            out@ + spec_forwards(all.skip(t as int)) == spec_forwards(all),
        decreases n - t,
    {
        let step = &ss.ops[t];
        let m = step.len();
        let ghost stepv = step@;
        let ghost rest = all.skip(t as int + 1);
        proof {
            assert(all[t as int] =~= stepv);
            assert(all.skip(t as int)[0] == all[t as int]);
            assert(all.skip(t as int).drop_first() =~= all.skip(t as int + 1));
            assert(spec_forwards(all.skip(t as int)) == spec_step_forwards(stepv) + spec_forwards(
                rest,
            ));
            assert(stepv.skip(0) =~= stepv);
        }
        let mut k: usize = 0;
        while k < m
            invariant
                m == step@.len(),
                stepv == step@,
                rest == all.skip(t as int + 1),
                0 <= k <= m,
                out@ + (spec_step_forwards(stepv.skip(k as int)) + spec_forwards(rest))
                    == spec_forwards(all),
            decreases m - k,
        {
            let ghost pre = out@;
            let ghost x_rest = spec_step_forwards(stepv.skip(k as int + 1));
            proof {
                assert(stepv.skip(k as int)[0] == stepv[k as int]);
                assert(stepv.skip(k as int).drop_first() =~= stepv.skip(k as int + 1));
            }
            match step[k] {
                PipeOp::Forward { micro_batch } => {
                    proof {
                        assert(spec_step_forwards(stepv.skip(k as int)) == seq![micro_batch]
                            + x_rest);
                    }
                    out.push(micro_batch);
                    proof {
                        assert(out@ =~= pre + seq![micro_batch]);
                        assert((pre + seq![micro_batch]) + (x_rest + spec_forwards(rest)) =~= pre
                            + ((seq![micro_batch] + x_rest) + spec_forwards(rest)));
                    }
                },
                _ => {
                    proof {
                        assert(spec_step_forwards(stepv.skip(k as int)) == Seq::<u32>::empty()
                            + x_rest);
                        assert(Seq::<u32>::empty() + x_rest =~= x_rest);
                    }
                },
            }
            k = k + 1;
        }
        proof {
            assert(stepv.skip(m as int) =~= Seq::<PipeOp>::empty());
            assert(spec_step_forwards(stepv.skip(m as int)) + spec_forwards(rest) =~= spec_forwards(
                rest,
            ));
        }
        t = t + 1;
    }
    proof {
        assert(all.skip(n as int) =~= Seq::<Seq<PipeOp>>::empty());
        assert(out@ + spec_forwards(all.skip(n as int)) =~= out@);
    }
    out
}

/// The remaining schedule steps of stage `s` from step `t` on.
pub open spec fn steps_from(p: int, m: int, s: int, t: int) -> Seq<Seq<PipeOp>> {
    Seq::new((m + p - 1 - t) as nat, |u: int| spec_step_ops(p, m, s, t + u))
}

/// The micro-batches from `lo` up to `m`, in order.
pub open spec fn mb_range(lo: int, m: int) -> Seq<u32> {
    Seq::new((m - lo) as nat, |i: int| (lo + i) as u32)
}

/// The first micro-batch stage `s` still forwards at or after step `t`.
pub open spec fn first_mb_from(m: int, s: int, t: int) -> int {
    if t <= s {
        0
    } else if t - s <= m {
        t - s
    } else {
        m
    }
}

proof fn lemma_forwards_from(p: int, m: int, s: int, t: int)
    requires
        1 <= p,
        1 <= m <= u32::MAX,
        0 <= s < p,
        0 <= t <= m + p - 1,
    ensures
        spec_forwards(steps_from(p, m, s, t)) == mb_range(first_mb_from(m, s, t), m),
    decreases m + p - 1 - t,
{
    if t == m + p - 1 {
        assert(steps_from(p, m, s, t) =~= Seq::<Seq<PipeOp>>::empty());
        assert(first_mb_from(m, s, t) == m);
        assert(spec_forwards(steps_from(p, m, s, t)) =~= mb_range(m, m));
    } else {
        lemma_forwards_from(p, m, s, t + 1);
        let ops_t = spec_step_ops(p, m, s, t);
        let steps = steps_from(p, m, s, t);
        assert(steps[0] == ops_t);
        assert(steps.drop_first() =~= steps_from(p, m, s, t + 1));
        if s <= t < s + m {
            let mb = (t - s) as u32;
            let fwd_only = seq![PipeOp::Forward { micro_batch: mb }];
            let fwd_send = seq![
                PipeOp::Forward { micro_batch: mb },
                PipeOp::SendActivation { micro_batch: mb },
            ];
            assert(spec_step_forwards(Seq::<PipeOp>::empty()) =~= Seq::<u32>::empty());
            assert(fwd_only.drop_first() =~= Seq::<PipeOp>::empty());
            assert(spec_step_forwards(fwd_only) =~= seq![mb]);
            assert(fwd_send.drop_first().drop_first() =~= Seq::<PipeOp>::empty());
            assert(fwd_send.drop_first() =~= seq![PipeOp::SendActivation { micro_batch: mb }]);
            assert(spec_step_forwards(fwd_send.drop_first()) =~= Seq::<u32>::empty());
            assert(spec_step_forwards(fwd_send) =~= seq![mb]);
            if s != 0 && s != p - 1 {
                assert(ops_t.drop_first() =~= fwd_send);
                assert(ops_t[0] == (PipeOp::RecvActivation { micro_batch: mb }));
                assert(spec_step_forwards(ops_t) =~= seq![mb]);
            } else if s != 0 {
                assert(ops_t.drop_first() =~= fwd_only);
                assert(ops_t[0] == (PipeOp::RecvActivation { micro_batch: mb }));
                assert(spec_step_forwards(ops_t) =~= seq![mb]);
            } else if s != p - 1 {
                assert(ops_t =~= fwd_send);
            } else {
                assert(ops_t =~= fwd_only);
            }
            assert(spec_step_forwards(ops_t) =~= seq![mb]);
            assert(spec_forwards(steps) =~= seq![mb] + mb_range(first_mb_from(m, s, t + 1), m));
            assert(first_mb_from(m, s, t + 1) == t - s + 1);
            assert(seq![mb] + mb_range(t - s + 1, m) =~= mb_range(t - s, m));
        } else {
            assert(ops_t =~= seq![PipeOp::Idle]);
            assert(ops_t.drop_first() =~= Seq::<PipeOp>::empty());
            assert(spec_step_forwards(Seq::<PipeOp>::empty()) =~= Seq::<u32>::empty());
            assert(spec_step_forwards(ops_t) =~= Seq::<u32>::empty());
            assert(spec_forwards(steps) =~= Seq::<u32>::empty() + mb_range(
                first_mb_from(m, s, t + 1),
                m,
            ));
            assert(spec_forwards(steps) =~= mb_range(first_mb_from(m, s, t + 1), m));
            assert(first_mb_from(m, s, t) == first_mb_from(m, s, t + 1));
        }
    }
}

/// Within a request, stage `s` of a well-formed schedule forwards
/// exactly the micro-batches `0, 1, …, m − 1`, once each, in this order:
/// what goes in comes out, micro-batch by micro-batch, in push order.
pub proof fn law_schedule_forwards_in_order(
    sch: crate::scheduler::InferenceSchedule,
    p: int,
    m: int,
    s: int,
)
    requires
        wf_schedule(sch, p, m),
        1 <= m <= u32::MAX,
        0 <= s < p,
    ensures
        spec_forwards(sch.stage_schedules[s].ops.deep_view()) == mb_range(0, m),
{
    let ops = sch.stage_schedules[s].ops;
    assert forall|t: int| 0 <= t < m + p - 1 implies ops.deep_view()[t] == steps_from(
        p,
        m,
        s,
        0,
    )[t] by {
        assert(ops.deep_view()[t] =~= ops[t]@);
    }
    assert(ops.deep_view() =~= steps_from(p, m, s, 0));
    lemma_forwards_from(p, m, s, 0);
}

} // verus!
