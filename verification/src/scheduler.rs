//! The forward-only fill-drain inference schedule.
//!
//! With `p` stages and `m` micro-batches the schedule has `m + p - 1` time
//! steps. At step `t`, stage `s` works on micro-batch `t - s` when
//! `s <= t < s + m` and is idle otherwise; stage 0 never receives an
//! activation and the last stage never sends one.

use vstd::prelude::*;

use crate::error::SchedulerError;

verus! {

/// An operation in the pipeline schedule for a single time step.
#[derive(Debug, Clone, Copy, PartialEq, Eq, Structural)]
pub enum PipeOp {
    /// Receive activation tensors from the upstream stage.
    RecvActivation { micro_batch: u32 },
    /// Execute the forward pass on a micro-batch.
    Forward { micro_batch: u32 },
    /// Send activation tensors to the downstream stage.
    SendActivation { micro_batch: u32 },
    /// No work this step (pipeline bubble).
    Idle,
}

impl DeepView for PipeOp {
    type V = PipeOp;

    open spec fn deep_view(&self) -> PipeOp {
        *self
    }
}

/// The schedule for a single stage: a sequence of operations per time step.
pub struct StageSchedule {
    pub stage_idx: usize,
    pub ops: Vec<Vec<PipeOp>>,
}

/// Forward-only inference schedule (fill-drain pattern).
pub struct InferenceSchedule {
    pub num_stages: usize,
    pub num_micro_batches: u32,
    /// Total time steps: `m + p - 1`.
    pub total_steps: usize,
    pub stage_schedules: Vec<StageSchedule>,
}

/// The operations of stage `s` at time step `t`, for `p` stages and `m`
/// micro-batches: in the window `s <= t < s + m` the stage receives
/// (unless first), forwards, and sends (unless last) micro-batch `t - s`;
/// outside the window it is idle.
pub open spec fn spec_step_ops(p: int, m: int, s: int, t: int) -> Seq<PipeOp> {
    if s <= t < s + m {
        let mb = (t - s) as u32;
        (if s != 0 {
            seq![PipeOp::RecvActivation { micro_batch: mb }]
        } else {
            Seq::<PipeOp>::empty()
        }) + seq![PipeOp::Forward { micro_batch: mb }] + (if s != p - 1 {
            seq![PipeOp::SendActivation { micro_batch: mb }]
        } else {
            Seq::<PipeOp>::empty()
        })
    } else {
        seq![PipeOp::Idle]
    }
}

/// A generated schedule is well-formed for `p` stages and `m`
/// micro-batches: `m + p - 1` steps per stage, and each stage's step `t`
/// holds exactly the operations `spec_step_ops` prescribes.
pub open spec fn wf_schedule(sch: InferenceSchedule, p: int, m: int) -> bool {
    &&& sch.num_stages == p
    &&& sch.num_micro_batches == m
    &&& sch.total_steps == m + p - 1
    &&& sch.stage_schedules.len() == p
    &&& (forall|s: int|
        0 <= s < p ==> (#[trigger] sch.stage_schedules[s].stage_idx) == s)
    &&& (forall|s: int|
        0 <= s < p ==> (#[trigger] sch.stage_schedules[s].ops).len() == m + p - 1)
    &&& (forall|s: int, t: int|
        0 <= s < p && 0 <= t < m + p - 1 ==> (#[trigger] sch.stage_schedules[s].ops[t])@
            == spec_step_ops(p, m, s, t))
}

impl InferenceSchedule {
    /// Generate a forward-only fill-drain schedule.
    ///
    /// - Stage 0 has no `RecvActivation` (it receives input directly).
    /// - The last stage has no `SendActivation` (it outputs results).
    /// - Each stage starts its first forward at time step `stage_idx`.
    pub fn generate(num_stages: usize, num_micro_batches: u32) -> (r: Result<
        Self,
        SchedulerError,
    >)
        requires
            num_stages + num_micro_batches - 1 <= usize::MAX,
        ensures
            num_stages == 0 ==> r == Err::<Self, _>(SchedulerError::ZeroStages),
            num_stages > 0 && num_micro_batches == 0 ==> r == Err::<Self, _>(
                SchedulerError::ZeroMicroBatches,
            ),
            num_stages > 0 && num_micro_batches > 0 ==> r is Ok && wf_schedule(
                r->Ok_0,
                num_stages as int,
                num_micro_batches as int,
            ),
    {
        if num_stages == 0 {
            return Err(SchedulerError::ZeroStages);
        }
        if num_micro_batches == 0 {
            return Err(SchedulerError::ZeroMicroBatches);
        }
        let p = num_stages;
        let m_usize = num_micro_batches as usize;
        let total_steps = m_usize - 1 + p;

        let ghost pi = p as int;
        let ghost mi = num_micro_batches as int;

        let mut stage_schedules: Vec<StageSchedule> = Vec::new();
        let mut s: usize = 0;
        while s < p
            invariant
                p == num_stages,
                m_usize == num_micro_batches as int,
                1 <= p,
                1 <= m_usize,
                total_steps == mi + pi - 1,
                pi == p as int,
                mi == num_micro_batches as int,
                0 <= s <= p,
                stage_schedules.len() == s,
                forall|k: int|
                    0 <= k < s ==> (#[trigger] stage_schedules[k].stage_idx) == k,
                forall|k: int|
                    0 <= k < s ==> (#[trigger] stage_schedules[k].ops).len() == mi + pi - 1,
                forall|k: int, t: int|
                    0 <= k < s && 0 <= t < mi + pi - 1 ==> (#[trigger] stage_schedules[k].ops[t])@
                        == spec_step_ops(pi, mi, k, t),
            decreases p - s,
        {
            let mut ops: Vec<Vec<PipeOp>> = Vec::new();
            let mut t: usize = 0;
            while t < total_steps
                invariant
                    p == num_stages,
                    1 <= p,
                    1 <= m_usize,
                    m_usize == num_micro_batches as int,
                    total_steps == mi + pi - 1,
                    pi == p as int,
                    mi == num_micro_batches as int,
                    0 <= s < p,
                    0 <= t <= total_steps,
                    ops.len() == t,
                    forall|u: int|
                        0 <= u < t ==> (#[trigger] ops[u])@ == spec_step_ops(pi, mi, s as int, u),
                decreases total_steps - t,
            {
                let mut step_ops: Vec<PipeOp> = Vec::new();
                if t >= s && t - s < m_usize {
                    let mb = (t - s) as u32;
                    if s != 0 {
                        step_ops.push(PipeOp::RecvActivation { micro_batch: mb });
                    }
                    step_ops.push(PipeOp::Forward { micro_batch: mb });
                    if s != p - 1 {
                        step_ops.push(PipeOp::SendActivation { micro_batch: mb });
                    }
                } else {
                    step_ops.push(PipeOp::Idle);
                }
                assert(step_ops@ =~= spec_step_ops(pi, mi, s as int, t as int));
                ops.push(step_ops);
                t = t + 1;
            }
            stage_schedules.push(StageSchedule { stage_idx: s, ops });
            s = s + 1;
        }

        Ok(
            InferenceSchedule {
                num_stages,
                num_micro_batches,
                total_steps,
                stage_schedules,
            },
        )
    }

    /// Get the schedule for a specific stage.
    pub fn stage(&self, stage_idx: usize) -> (r: Option<&StageSchedule>)
        ensures
            stage_idx < self.stage_schedules.len() ==> r == Some(
                &self.stage_schedules[stage_idx as int],
            ),
            stage_idx >= self.stage_schedules.len() ==> r is None,
    {
        self.stage_schedules.get(stage_idx)
    }
}

/// Stage `s` forwards micro-batch `mb` at step `t` exactly when `mb` is a
/// real micro-batch and `t` is `s + mb`: each stage forwards each
/// micro-batch exactly once, at its staggered step.
pub proof fn law_forward_exactly_once(p: int, m: int, s: int, t: int, mb: u32)
    requires
        1 <= p,
        1 <= m <= u32::MAX,
        0 <= s < p,
    ensures
        spec_step_ops(p, m, s, t).contains(PipeOp::Forward { micro_batch: mb }) <==> (mb < m && t
            == s + mb),
{
    let ops = spec_step_ops(p, m, s, t);
    let fwd = PipeOp::Forward { micro_batch: mb };
    if mb < m && t == s + mb {
        if s != 0 {
            assert(ops[1] == fwd);
        } else {
            assert(ops[0] == fwd);
        }
        assert(ops.contains(fwd));
    }
    if ops.contains(fwd) {
        let i = choose|i: int| 0 <= i < ops.len() && ops[i] == fwd;
        if s <= t < s + m {
            assert(mb == (t - s) as u32);
            assert(0 <= t - s < m);
        } else {
            assert(ops[i] == PipeOp::Idle);
        }
    }
}

/// Within a stage, forward micro-batch indices strictly increase with the
/// step index.
pub proof fn law_forward_order(p: int, m: int, s: int, t1: int, t2: int, mb1: u32, mb2: u32)
    requires
        1 <= p,
        1 <= m <= u32::MAX,
        0 <= s < p,
        t1 < t2,
        spec_step_ops(p, m, s, t1).contains(PipeOp::Forward { micro_batch: mb1 }),
        spec_step_ops(p, m, s, t2).contains(PipeOp::Forward { micro_batch: mb2 }),
    ensures
        mb1 < mb2,
{
    law_forward_exactly_once(p, m, s, t1, mb1);
    law_forward_exactly_once(p, m, s, t2, mb2);
}

/// Stage 0 never has a receive-activation operation.
pub proof fn law_first_stage_no_recv(p: int, m: int, t: int, mb: u32)
    requires
        1 <= p,
        1 <= m,
    ensures
        !spec_step_ops(p, m, 0, t).contains(PipeOp::RecvActivation { micro_batch: mb }),
{
}

/// The last stage never has a send-activation operation.
pub proof fn law_last_stage_no_send(p: int, m: int, t: int, mb: u32)
    requires
        1 <= p,
        1 <= m,
    ensures
        !spec_step_ops(p, m, p - 1, t).contains(PipeOp::SendActivation { micro_batch: mb }),
{
}

} // verus!
