use confidential_ml_pipeline::error::PipelineError;
use confidential_ml_pipeline::orchestrator::{
    drain_reply_terminal, establish_msg, expect_data_channels_ready, expect_ready,
    expect_request_reply, is_shutting_down, pong_action, scan_error_reply,
};
use confidential_ml_pipeline::stage::{
    check_weight_hashes, establish_action, forward_sequence, inflight_action, process_action,
    EstablishAction, InFlightAction,
};
use confidential_ml_pipeline::transport::tcp_addr;
use confidential_ml_pipeline::{
    relay_plan, resolve_vsock, ActivationDType, ActivationSpec, DataMsg, InferStart,
    InferenceSchedule, OrchestratorCore, OrchestratorMsg, OutputCollector, PipelinePhase,
    PongClass, PortSpec, ProcessAction, ShardManifest, StageCore, StageEndpoint, StageMsg,
    StagePhase, StageSpec, Tensor, TensorDType, WeightHashCheck,
};

fn make_endpoint(base_port: u32) -> StageEndpoint {
    StageEndpoint {
        control: PortSpec::Tcp {
            addr: format!("127.0.0.1:{}", base_port),
        },
        data_in: PortSpec::Tcp {
            addr: format!("127.0.0.1:{}", base_port + 1),
        },
        data_out: PortSpec::Tcp {
            addr: format!("127.0.0.1:{}", base_port + 2),
        },
    }
}

fn make_manifest(num_stages: usize) -> ShardManifest {
    let stages = (0..num_stages)
        .map(|i| StageSpec {
            stage_idx: i,
            layer_start: i * 4,
            layer_end: (i + 1) * 4,
            weight_hashes: vec![],
            expected_measurements: Vec::new(),
            endpoint: make_endpoint((9100 + i * 10) as u32),
        })
        .collect();

    ShardManifest {
        model_name: "core-test".into(),
        model_version: "1.0".into(),
        total_layers: num_stages * 4,
        stages,
        activation_spec: ActivationSpec {
            dtype: ActivationDType::F32,
            hidden_dim: 4,
            max_seq_len: 16,
        },
    }
}

fn make_tensor(name: &str) -> Tensor {
    Tensor {
        name: name.to_string(),
        dtype: TensorDType::F32,
        shape: vec![1, 4],
        data: vec![0u8; 16],
    }
}

fn end_msg() -> DataMsg {
    DataMsg::Data(b"END".to_vec())
}

#[test]
fn core_lifecycle_reaches_idle() {
    let mut core = OrchestratorCore::new(make_manifest(2)).unwrap();
    assert_eq!(core.phase, PipelinePhase::Uninit);
    core.mark_initialised();
    core.mark_data_channels_ready();
    core.mark_idle();
    assert_eq!(core.phase, PipelinePhase::Idle);
    assert!(!core.is_tainted());
}

#[test]
fn core_rejects_invalid_manifest() {
    let mut m = make_manifest(2);
    m.total_layers = 99;
    assert!(matches!(
        OrchestratorCore::new(m),
        Err(PipelineError::Manifest(_))
    ));
}

#[test]
fn empty_infer_returns_empty_without_data_channels() {
    let mut core = OrchestratorCore::new(make_manifest(2)).unwrap();
    core.mark_initialised();
    core.mark_data_channels_ready();
    core.mark_idle();
    let r = core.begin_infer(1, 0).unwrap();
    assert_eq!(r, InferStart::Empty);
    assert_eq!(core.phase, PipelinePhase::Idle);
}

#[test]
fn timeout_with_clean_drain_recovers() {
    let mut core = OrchestratorCore::new(make_manifest(2)).unwrap();
    core.mark_initialised();
    core.mark_data_channels_ready();
    core.mark_idle();
    assert_eq!(core.begin_infer(11, 1).unwrap(), InferStart::Started);
    core.note_timeout(true);
    assert!(!core.is_tainted());
    assert!(core.health_gate().is_ok());
    // A second request is admitted after the drain.
    assert_eq!(core.begin_infer(12, 1).unwrap(), InferStart::Started);
    core.end_request();
    assert_eq!(core.phase, PipelinePhase::Idle);
}

#[test]
fn timeout_with_failed_drain_taints() {
    let mut core = OrchestratorCore::new(make_manifest(2)).unwrap();
    core.mark_initialised();
    core.mark_data_channels_ready();
    core.mark_idle();
    assert_eq!(core.begin_infer(21, 1).unwrap(), InferStart::Started);
    core.note_timeout(false);
    assert!(core.is_tainted());
    assert!(matches!(core.begin_infer(22, 1), Err(PipelineError::Tainted)));
    assert!(matches!(core.health_gate(), Err(PipelineError::Tainted)));
    // Shutdown never clears the taint.
    core.mark_shutdown();
    assert!(core.is_tainted());
}

#[test]
fn failed_request_leaves_pipeline_usable() {
    let mut core = OrchestratorCore::new(make_manifest(1)).unwrap();
    core.mark_initialised();
    core.mark_data_channels_ready();
    core.mark_idle();
    assert_eq!(core.begin_infer(31, 2).unwrap(), InferStart::Started);
    // The request failed; the pipeline goes back to taking requests.
    core.end_request();
    assert_eq!(core.begin_infer(32, 2).unwrap(), InferStart::Started);
}

#[test]
fn shutdown_is_idempotent() {
    let mut core = OrchestratorCore::new(make_manifest(2)).unwrap();
    core.mark_shutdown();
    assert_eq!(core.phase, PipelinePhase::ShutDown);
    core.mark_shutdown();
    assert_eq!(core.phase, PipelinePhase::ShutDown);
}

#[test]
fn collector_keeps_micro_batch_order() {
    let mut c = OutputCollector::new(2);
    assert_eq!(c.feed(DataMsg::Tensor(make_tensor("mb0"))).unwrap(), false);
    assert_eq!(c.feed(end_msg()).unwrap(), false);
    assert_eq!(c.feed(DataMsg::Tensor(make_tensor("mb1"))).unwrap(), false);
    assert_eq!(c.feed(end_msg()).unwrap(), true);
    let outputs = c.into_outputs();
    assert_eq!(outputs.len(), 2);
    assert_eq!(outputs[0].len(), 1);
    assert_eq!(outputs[0][0].name, "mb0");
    assert_eq!(outputs[1][0].name, "mb1");
    assert_eq!(outputs[0][0].shape, vec![1, 4]);
    assert_eq!(outputs[0][0].data.len(), 16);
}

#[test]
fn collector_surfaces_error_sentinel() {
    let mut c = OutputCollector::new(1);
    let r = c.feed(DataMsg::Data(b"ERR".to_vec()));
    assert!(matches!(r, Err(PipelineError::StageFailed { .. })));
}

#[test]
fn collector_surfaces_shutdown_and_protocol_errors() {
    let mut c = OutputCollector::new(1);
    assert!(matches!(c.feed(DataMsg::Shutdown), Err(PipelineError::Shutdown)));
    let mut c = OutputCollector::new(1);
    assert!(matches!(
        c.feed(DataMsg::Data(b"bogus".to_vec())),
        Err(PipelineError::Protocol(_))
    ));
}

#[test]
fn init_msg_payloads_decode_back() {
    let core = OrchestratorCore::new(make_manifest(2)).unwrap();
    match core.init_msg(1) {
        OrchestratorMsg::Init {
            stage_spec,
            activation_spec,
            num_stages,
        } => {
            assert_eq!(num_stages, 2);
            let s = StageSpec::from_bytes(&stage_spec).unwrap();
            assert_eq!(s.stage_idx, 1);
            assert_eq!(s.layer_start, 4);
            let a = ActivationSpec::from_bytes(&activation_spec).unwrap();
            assert_eq!(a.max_seq_len, 16);
            assert_eq!(a.dtype, ActivationDType::F32);
        }
        other => panic!("expected Init, got {other:?}"),
    }
}

#[test]
fn establish_flags_follow_position() {
    match establish_msg(0, 3) {
        OrchestratorMsg::EstablishDataChannels {
            has_upstream,
            has_downstream,
        } => {
            assert!(!has_upstream);
            assert!(has_downstream);
        }
        other => panic!("expected EstablishDataChannels, got {other:?}"),
    }
    match establish_msg(2, 3) {
        OrchestratorMsg::EstablishDataChannels {
            has_upstream,
            has_downstream,
        } => {
            assert!(has_upstream);
            assert!(!has_downstream);
        }
        other => panic!("expected EstablishDataChannels, got {other:?}"),
    }
}

#[test]
fn reply_classification() {
    assert!(expect_ready(&StageMsg::Ready { stage_idx: 1 }, 1).is_ok());
    assert!(expect_ready(&StageMsg::Ready { stage_idx: 2 }, 1).is_err());
    assert!(expect_ready(&StageMsg::Pong { seq: 0 }, 1).is_err());
    assert!(expect_data_channels_ready(&StageMsg::DataChannelsReady { stage_idx: 0 }, 0).is_ok());
    assert!(expect_data_channels_ready(&StageMsg::Ready { stage_idx: 0 }, 0).is_err());

    assert!(expect_request_reply(&StageMsg::RequestDone { request_id: 5 }, 5, 0).is_ok());
    let failed = expect_request_reply(
        &StageMsg::RequestError {
            request_id: 5,
            error: "boom".into(),
        },
        5,
        1,
    );
    match failed {
        Err(PipelineError::RequestFailed { request_id, reason }) => {
            assert_eq!(request_id, 5);
            assert_eq!(reason, "stage 1 error: boom");
        }
        other => panic!("expected RequestFailed, got {other:?}"),
    }
    assert!(matches!(
        expect_request_reply(&StageMsg::RequestDone { request_id: 6 }, 5, 0),
        Err(PipelineError::Protocol(_))
    ));

    let scanned = scan_error_reply(
        &StageMsg::RequestError {
            request_id: 5,
            error: "boom".into(),
        },
        5,
        0,
    );
    assert!(matches!(
        scanned,
        Some(PipelineError::RequestFailed { request_id: 5, .. })
    ));
    assert!(scan_error_reply(&StageMsg::RequestDone { request_id: 5 }, 5, 0).is_none());
    assert!(scan_error_reply(
        &StageMsg::RequestError {
            request_id: 9,
            error: "stale".into()
        },
        5,
        0
    )
    .is_none());
}

#[test]
fn drain_and_pong_tolerance() {
    assert!(drain_reply_terminal(&StageMsg::RequestDone { request_id: 5 }, 5));
    assert!(drain_reply_terminal(
        &StageMsg::RequestError {
            request_id: 5,
            error: "aborted".into()
        },
        5
    ));
    assert!(drain_reply_terminal(&StageMsg::ShuttingDown { stage_idx: 0 }, 5));
    assert!(!drain_reply_terminal(&StageMsg::RequestDone { request_id: 4 }, 5));
    assert!(!drain_reply_terminal(&StageMsg::Pong { seq: 1 }, 5));

    assert_eq!(pong_action(&StageMsg::Pong { seq: 7 }, 7), PongClass::Accept);
    assert_eq!(pong_action(&StageMsg::Pong { seq: 8 }, 7), PongClass::Fatal);
    assert_eq!(
        pong_action(&StageMsg::RequestDone { request_id: 1 }, 7),
        PongClass::Stale
    );
    assert_eq!(
        pong_action(
            &StageMsg::RequestError {
                request_id: 1,
                error: "stale".into()
            },
            7
        ),
        PongClass::Stale
    );
    assert_eq!(
        pong_action(&StageMsg::Ready { stage_idx: 0 }, 7),
        PongClass::Fatal
    );

    assert!(is_shutting_down(&StageMsg::ShuttingDown { stage_idx: 0 }));
    assert!(!is_shutting_down(&StageMsg::Pong { seq: 0 }));
}

#[test]
fn stage_core_handshake() {
    let orch = OrchestratorCore::new(make_manifest(2)).unwrap();
    let init = orch.init_msg(1);
    let mut stage = StageCore::new();
    assert_eq!(stage.phase, StagePhase::AwaitInit);
    stage.on_init(&init).unwrap();
    assert_eq!(stage.phase, StagePhase::AwaitEstablish);
    assert_eq!(stage.stage_idx, 1);
    assert_eq!(stage.num_stages, 2);
    assert_eq!(stage.activation_spec.as_ref().unwrap().max_seq_len, 16);

    match stage.ready_msg() {
        StageMsg::Ready { stage_idx } => assert_eq!(stage_idx, 1),
        other => panic!("expected Ready, got {other:?}"),
    }
    stage.mark_processing();
    assert_eq!(stage.phase, StagePhase::Processing);
}

#[test]
fn stage_rejects_non_init_first() {
    let mut stage = StageCore::new();
    let r = stage.on_init(&OrchestratorMsg::Ping { seq: 1 });
    assert!(matches!(r, Err(PipelineError::Protocol(_))));
    assert_eq!(stage.phase, StagePhase::AwaitInit);
}

#[test]
fn establish_wait_actions() {
    assert_eq!(
        establish_action(&OrchestratorMsg::EstablishDataChannels {
            has_upstream: true,
            has_downstream: false,
        }),
        EstablishAction::Proceed {
            has_upstream: true,
            has_downstream: false,
        }
    );
    assert_eq!(
        establish_action(&OrchestratorMsg::Ping { seq: 4 }),
        EstablishAction::ReplyPong { seq: 4 }
    );
    assert_eq!(
        establish_action(&OrchestratorMsg::Shutdown),
        EstablishAction::Unexpected
    );
}

#[test]
fn overlong_seq_len_is_rejected_and_stage_stays_usable() {
    let msg = OrchestratorMsg::StartRequest {
        request_id: 3,
        num_micro_batches: 1,
        seq_len: 64,
    };
    assert_eq!(
        process_action(&msg, 16),
        ProcessAction::RejectRequest {
            request_id: 3,
            seq_len: 64,
            max_seq_len: 16,
        }
    );
    // Within the bound the request runs.
    let ok = OrchestratorMsg::StartRequest {
        request_id: 4,
        num_micro_batches: 2,
        seq_len: 16,
    };
    assert_eq!(
        process_action(&ok, 16),
        ProcessAction::RunRequest {
            request_id: 4,
            num_micro_batches: 2,
        }
    );
    assert_eq!(
        process_action(&OrchestratorMsg::Shutdown, 16),
        ProcessAction::ShutdownNow
    );
    assert_eq!(
        process_action(
            &OrchestratorMsg::AbortRequest {
                request_id: 9,
                reason: "late".into()
            },
            16
        ),
        ProcessAction::IgnoreAbort { request_id: 9 }
    );
    assert_eq!(
        process_action(&OrchestratorMsg::Ping { seq: 2 }, 16),
        ProcessAction::ReplyPong { seq: 2 }
    );
}

#[test]
fn inflight_actions() {
    assert_eq!(
        inflight_action(&OrchestratorMsg::AbortRequest {
            request_id: 3,
            reason: "timeout".into(),
        }),
        InFlightAction::CancelAbort { request_id: 3 }
    );
    assert_eq!(
        inflight_action(&OrchestratorMsg::Ping { seq: 1 }),
        InFlightAction::ReplyPong { seq: 1 }
    );
    assert_eq!(
        inflight_action(&OrchestratorMsg::Shutdown),
        InFlightAction::CancelShutdown
    );
    assert_eq!(
        inflight_action(&OrchestratorMsg::StartRequest {
            request_id: 8,
            num_micro_batches: 1,
            seq_len: 4,
        }),
        InFlightAction::Continue
    );
}

#[test]
fn weight_hash_checks() {
    // Matching hashes pass.
    let declared = vec!["abc123".to_string()];
    let actual = vec!["abc123".to_string()];
    assert_eq!(
        check_weight_hashes(&declared, &actual),
        WeightHashCheck::Verified
    );

    // A differing hash fails with its index.
    let declared = vec!["expected_hash".to_string()];
    let actual = vec!["wrong_hash".to_string()];
    assert_eq!(
        check_weight_hashes(&declared, &actual),
        WeightHashCheck::ValueMismatch { index: 0 }
    );

    // A count difference fails.
    let declared = vec!["a1".to_string(), "b2".to_string()];
    let actual = vec!["a1".to_string()];
    assert_eq!(
        check_weight_hashes(&declared, &actual),
        WeightHashCheck::CountMismatch {
            declared: 2,
            got: 1,
        }
    );

    // Nothing declared skips verification.
    let declared: Vec<String> = vec![];
    let actual = vec!["whatever".to_string()];
    assert_eq!(
        check_weight_hashes(&declared, &actual),
        WeightHashCheck::Verified
    );
}

#[test]
fn forward_sequence_is_in_order() {
    let s = InferenceSchedule::generate(3, 5).unwrap();
    for stage_idx in 0..3 {
        let plan = forward_sequence(s.stage(stage_idx).unwrap());
        let expected: Vec<u32> = (0..5).collect();
        assert_eq!(plan, expected, "stage {stage_idx}");
    }
}

#[test]
fn relay_plan_links_consecutive_stages() {
    assert!(relay_plan(0).is_empty());
    assert!(relay_plan(1).is_empty());
    let links = relay_plan(3);
    assert_eq!(links, vec![(0, 1), (1, 2)]);
}

#[test]
fn port_resolution() {
    let v = PortSpec::VSock { cid: 16, port: 5000 };
    assert_eq!(resolve_vsock(&v).unwrap(), (16, 5000));
    let t = PortSpec::Tcp {
        addr: "127.0.0.1:9000".into(),
    };
    assert!(matches!(resolve_vsock(&t), Err(PipelineError::Protocol(_))));
    assert_eq!(tcp_addr(&t).unwrap().as_str(), "127.0.0.1:9000");
    assert!(matches!(tcp_addr(&v), Err(PipelineError::Protocol(_))));
}

#[test]
fn decimal_rendering() {
    assert_eq!(confidential_ml_pipeline::text::u64_to_string(0), "0");
    assert_eq!(confidential_ml_pipeline::text::u64_to_string(7), "7");
    assert_eq!(
        confidential_ml_pipeline::text::u64_to_string(1234567890),
        "1234567890"
    );
}

#[test]
fn relay_mesh_creates_correct_links() {
    let links = relay_plan(3);
    assert_eq!(links.len(), 2); // 3 stages need 2 relay links
    for (i, (up, down)) in links.iter().enumerate() {
        assert_eq!(*up, i);
        assert_eq!(*down, i + 1);
    }
}

#[test]
fn single_stage_no_relays() {
    assert!(relay_plan(1).is_empty());
}
