use confidential_ml_pipeline::{OrchestratorMsg, StageMsg};

#[test]
fn orchestrator_msg_roundtrip() {
    let msgs = vec![
        OrchestratorMsg::Init {
            stage_spec: br#"{"stage_idx":0}"#.to_vec(),
            activation_spec: br#"{"dtype":"F32"}"#.to_vec(),
            num_stages: 3,
        },
        OrchestratorMsg::EstablishDataChannels {
            has_upstream: false,
            has_downstream: true,
        },
        OrchestratorMsg::StartRequest {
            request_id: 42,
            num_micro_batches: 4,
            seq_len: 128,
        },
        OrchestratorMsg::AbortRequest {
            request_id: 42,
            reason: "stage 1 failed".into(),
        },
        OrchestratorMsg::Shutdown,
        OrchestratorMsg::Ping { seq: 1 },
    ];

    for msg in msgs {
        let bytes = msg.to_bytes();
        let decoded = OrchestratorMsg::from_bytes(&bytes).unwrap();
        // Verify tag-based discrimination round-trips
        let re_bytes = decoded.to_bytes();
        assert_eq!(bytes, re_bytes);
    }
}

#[test]
fn stage_msg_roundtrip() {
    let msgs = vec![
        StageMsg::Ready { stage_idx: 0 },
        StageMsg::DataChannelsReady { stage_idx: 1 },
        StageMsg::RequestDone { request_id: 42 },
        StageMsg::RequestError {
            request_id: 42,
            error: "OOM".into(),
        },
        StageMsg::Pong { seq: 1 },
        StageMsg::ShuttingDown { stage_idx: 2 },
    ];

    for msg in msgs {
        let bytes = msg.to_bytes();
        let decoded = StageMsg::from_bytes(&bytes).unwrap();
        let re_bytes = decoded.to_bytes();
        assert_eq!(bytes, re_bytes);
    }
}

#[test]
fn invalid_json_returns_error() {
    assert!(OrchestratorMsg::from_bytes(b"not json").is_err());
    assert!(StageMsg::from_bytes(b"{\"type\":\"Unknown\"}").is_err());
}

#[test]
fn ping_encoding_is_exact() {
    // Tag byte 6, then the sequence number as eight little-endian bytes.
    let bytes = OrchestratorMsg::Ping { seq: 1 }.to_bytes();
    assert_eq!(bytes, vec![6u8, 1, 0, 0, 0, 0, 0, 0, 0]);
}

#[test]
fn shutdown_encoding_is_exact() {
    let bytes = OrchestratorMsg::Shutdown.to_bytes();
    assert_eq!(bytes, vec![5u8]);
}

#[test]
fn request_done_encoding_is_exact() {
    // Tag byte 3, then the request id as eight little-endian bytes.
    let bytes = StageMsg::RequestDone { request_id: 258 }.to_bytes();
    assert_eq!(bytes, vec![3u8, 2, 1, 0, 0, 0, 0, 0, 0]);
}

#[test]
fn abort_reason_survives_roundtrip() {
    let msg = OrchestratorMsg::AbortRequest {
        request_id: 7,
        reason: "deadline exceeded: drain".into(),
    };
    let bytes = msg.to_bytes();
    match OrchestratorMsg::from_bytes(&bytes).unwrap() {
        OrchestratorMsg::AbortRequest { request_id, reason } => {
            assert_eq!(request_id, 7);
            assert_eq!(reason, "deadline exceeded: drain");
        }
        other => panic!("expected AbortRequest, got {other:?}"),
    }
}

#[test]
fn request_error_text_survives_roundtrip() {
    let msg = StageMsg::RequestError {
        request_id: 9,
        error: "forward pass failed: out of memory".into(),
    };
    let bytes = msg.to_bytes();
    match StageMsg::from_bytes(&bytes).unwrap() {
        StageMsg::RequestError { request_id, error } => {
            assert_eq!(request_id, 9);
            assert_eq!(error, "forward pass failed: out of memory");
        }
        other => panic!("expected RequestError, got {other:?}"),
    }
}

#[test]
fn truncated_message_is_rejected() {
    let bytes = StageMsg::Ready { stage_idx: 4 }.to_bytes();
    assert!(StageMsg::from_bytes(&bytes[..bytes.len() - 1]).is_err());
    assert!(StageMsg::from_bytes(&[]).is_err());
}

#[test]
fn trailing_bytes_are_rejected() {
    let mut bytes = OrchestratorMsg::Ping { seq: 3 }.to_bytes();
    bytes.push(0);
    assert!(OrchestratorMsg::from_bytes(&bytes).is_err());
}
