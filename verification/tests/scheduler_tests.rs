use confidential_ml_pipeline::error::SchedulerError;
use confidential_ml_pipeline::{InferenceSchedule, PipeOp};

#[test]
fn scheduler_single_stage_single_batch() {
    let s = InferenceSchedule::generate(1, 1).unwrap();
    assert_eq!(s.total_steps, 1);
    let bubble = (s.num_stages - 1) as f64 / s.total_steps as f64;
    assert_eq!(bubble, 0.0);
    let ops = &s.stage_schedules[0].ops;
    assert_eq!(ops.len(), 1);
    assert_eq!(ops[0], vec![PipeOp::Forward { micro_batch: 0 }]);
}

#[test]
fn two_stages_two_batches() {
    let s = InferenceSchedule::generate(2, 2).unwrap();
    // total_steps = 2 + 2 - 1 = 3
    assert_eq!(s.total_steps, 3);
    // bubble = 1/3
    let bubble = (s.num_stages - 1) as f64 / s.total_steps as f64;
    assert!((bubble - 1.0 / 3.0).abs() < 1e-10);

    // Stage 0: forward mb0 at t=0, forward mb1 at t=1, idle at t=2
    let s0 = &s.stage_schedules[0].ops;
    assert_eq!(
        s0[0],
        vec![
            PipeOp::Forward { micro_batch: 0 },
            PipeOp::SendActivation { micro_batch: 0 },
        ]
    );
    assert_eq!(
        s0[1],
        vec![
            PipeOp::Forward { micro_batch: 1 },
            PipeOp::SendActivation { micro_batch: 1 },
        ]
    );
    assert_eq!(s0[2], vec![PipeOp::Idle]);

    // Stage 1: idle at t=0, forward mb0 at t=1, forward mb1 at t=2
    let s1 = &s.stage_schedules[1].ops;
    assert_eq!(s1[0], vec![PipeOp::Idle]);
    assert_eq!(
        s1[1],
        vec![
            PipeOp::RecvActivation { micro_batch: 0 },
            PipeOp::Forward { micro_batch: 0 },
        ]
    );
    assert_eq!(
        s1[2],
        vec![
            PipeOp::RecvActivation { micro_batch: 1 },
            PipeOp::Forward { micro_batch: 1 },
        ]
    );
}

#[test]
fn four_stages_sixteen_batches_bubble() {
    let s = InferenceSchedule::generate(4, 16).unwrap();
    assert_eq!(s.total_steps, 19); // 16 + 4 - 1
    let bubble = (s.num_stages - 1) as f64 / s.total_steps as f64;
    // (4-1)/19
    assert!((bubble - 3.0 / 19.0).abs() < 1e-10);
}

#[test]
fn every_micro_batch_covered() {
    let p = 3;
    let m = 5u32;
    let s = InferenceSchedule::generate(p, m).unwrap();

    for stage_idx in 0..p {
        let schedule = &s.stage_schedules[stage_idx];
        let mut forward_batches: Vec<u32> = Vec::new();
        for step in &schedule.ops {
            for op in step {
                if let PipeOp::Forward { micro_batch } = op {
                    forward_batches.push(*micro_batch);
                }
            }
        }
        forward_batches.sort();
        let expected: Vec<u32> = (0..m).collect();
        assert_eq!(
            forward_batches, expected,
            "stage {stage_idx} missing micro-batches"
        );
    }
}

#[test]
fn first_stage_no_recv() {
    let s = InferenceSchedule::generate(3, 4).unwrap();
    for step in &s.stage_schedules[0].ops {
        for op in step {
            assert!(
                !matches!(op, PipeOp::RecvActivation { .. }),
                "stage 0 should not have RecvActivation"
            );
        }
    }
}

#[test]
fn last_stage_no_send() {
    let s = InferenceSchedule::generate(3, 4).unwrap();
    for step in &s.stage_schedules[2].ops {
        for op in step {
            assert!(
                !matches!(op, PipeOp::SendActivation { .. }),
                "last stage should not have SendActivation"
            );
        }
    }
}

#[test]
fn scheduler_zero_stages_error() {
    assert!(matches!(
        InferenceSchedule::generate(0, 4),
        Err(SchedulerError::ZeroStages)
    ));
}

#[test]
fn scheduler_zero_micro_batches_error() {
    assert!(matches!(
        InferenceSchedule::generate(3, 0),
        Err(SchedulerError::ZeroMicroBatches)
    ));
}
