use confidential_ml_pipeline::error::ManifestError;
use confidential_ml_pipeline::{
    ActivationDType, ActivationSpec, Measurement, PortSpec, ShardManifest, StageEndpoint,
    StageSpec,
};

fn make_endpoint(base_port: u32) -> StageEndpoint {
    StageEndpoint {
        control: PortSpec::Tcp {
            addr: format!("127.0.0.1:{}", base_port),
        },
        data_in: PortSpec::Tcp {
            addr: format!("127.0.0.1:{}", base_port + 1),
        },
        data_out: PortSpec::Tcp {
            addr: format!("127.0.0.1:{}", base_port + 2),
        },
    }
}

fn make_manifest(num_stages: usize, layers_per_stage: usize) -> ShardManifest {
    let stages = (0..num_stages)
        .map(|i| StageSpec {
            stage_idx: i,
            layer_start: i * layers_per_stage,
            layer_end: (i + 1) * layers_per_stage,
            weight_hashes: vec![],
            expected_measurements: Vec::new(),
            endpoint: make_endpoint((9000 + i * 10) as u32),
        })
        .collect();

    ShardManifest {
        model_name: "test-model".into(),
        model_version: "1.0".into(),
        total_layers: num_stages * layers_per_stage,
        stages,
        activation_spec: ActivationSpec {
            dtype: ActivationDType::F32,
            hidden_dim: 768,
            max_seq_len: 512,
        },
    }
}

#[test]
fn valid_manifest() {
    let m = make_manifest(3, 4);
    assert!(m.validate().is_ok());
}

#[test]
fn json_roundtrip() {
    let m = make_manifest(2, 6);
    let encoded = m.to_bytes();
    let m2 = ShardManifest::from_bytes(&encoded).unwrap();
    assert_eq!(m2.model_name, "test-model");
    assert_eq!(m2.stages.len(), 2);
    assert_eq!(m2.stages[1].layer_start, 6);
}

#[test]
fn empty_stages() {
    let m = ShardManifest {
        model_name: "test".into(),
        model_version: "1".into(),
        total_layers: 0,
        stages: vec![],
        activation_spec: ActivationSpec {
            dtype: ActivationDType::F32,
            hidden_dim: 768,
            max_seq_len: 512,
        },
    };
    assert!(matches!(m.validate(), Err(ManifestError::EmptyStages)));
}

#[test]
fn non_contiguous_layers() {
    let mut m = make_manifest(2, 4);
    m.stages[1].layer_start = 5; // gap
    assert!(matches!(
        m.validate(),
        Err(ManifestError::NonContiguousLayers { .. })
    ));
}

#[test]
fn wrong_stage_index() {
    let mut m = make_manifest(2, 4);
    m.stages[1].stage_idx = 5;
    assert!(matches!(
        m.validate(),
        Err(ManifestError::WrongStageIndex { .. })
    ));
}

#[test]
fn layer_count_mismatch() {
    let mut m = make_manifest(2, 4);
    m.total_layers = 100;
    assert!(matches!(
        m.validate(),
        Err(ManifestError::LayerCountMismatch { .. })
    ));
}

#[test]
fn layer_start_not_zero() {
    let mut m = make_manifest(2, 5);
    // Shift both stages so they start at 10 instead of 0.
    m.stages[0].layer_start = 10;
    m.stages[0].layer_end = 15;
    m.stages[1].layer_start = 15;
    m.stages[1].layer_end = 20;
    // Coverage is 10 layers, matching total_layers, but doesn't start at 0.
    assert!(matches!(
        m.validate(),
        Err(ManifestError::LayerStartNotZero { start: 10 })
    ));
}

#[test]
fn invalid_layer_range() {
    let mut m = make_manifest(2, 4);
    m.stages[0].layer_start = 10;
    m.stages[0].layer_end = 5;
    assert!(matches!(
        m.validate(),
        Err(ManifestError::InvalidLayerRange { .. })
    ));
}

#[test]
fn expected_measurements_conversion() {
    let stage = StageSpec {
        stage_idx: 0,
        layer_start: 0,
        layer_end: 4,
        weight_hashes: vec![],
        expected_measurements: vec![
            Measurement {
                register: 0,
                hex_value: "abcd1234".into(),
            },
            Measurement {
                register: 1,
                hex_value: "deadbeef".into(),
            },
        ],
        endpoint: make_endpoint(9000),
    };
    let em = stage.to_expected_measurements().unwrap();
    assert_eq!(em.len(), 2);
    assert_eq!(em[0], (0, hex::decode("abcd1234").unwrap()));
    assert_eq!(em[1], (1, hex::decode("deadbeef").unwrap()));
}

#[test]
fn malformed_hex_measurement() {
    let stage = StageSpec {
        stage_idx: 3,
        layer_start: 0,
        layer_end: 4,
        weight_hashes: vec![],
        expected_measurements: vec![Measurement {
            register: 0,
            hex_value: "xyz".into(),
        }],
        endpoint: make_endpoint(9000),
    };
    assert!(matches!(
        stage.to_expected_measurements(),
        Err(ManifestError::MalformedHex { stage_idx: 3 })
    ));
}

#[test]
fn manifest_decode_rejects_garbage() {
    assert!(matches!(
        ShardManifest::from_bytes(b"not a manifest"),
        Err(ManifestError::MalformedEncoding)
    ));
    assert!(matches!(
        ShardManifest::from_bytes(&[]),
        Err(ManifestError::MalformedEncoding)
    ));
}

#[test]
fn manifest_decode_rejects_trailing_bytes() {
    let m = make_manifest(1, 4);
    let mut encoded = m.to_bytes();
    encoded.push(0);
    assert!(matches!(
        ShardManifest::from_bytes(&encoded),
        Err(ManifestError::MalformedEncoding)
    ));
}

#[test]
fn manifest_decode_validates() {
    // Structurally well-encoded but invalid: the layer count is off.
    let mut m = make_manifest(2, 4);
    m.total_layers = 100;
    let encoded = m.to_bytes();
    assert!(matches!(
        ShardManifest::from_bytes(&encoded),
        Err(ManifestError::LayerCountMismatch {
            covered: 8,
            total: 100
        })
    ));
}

#[test]
fn vsock_roundtrip_in_manifest() {
    let mut m = make_manifest(1, 4);
    m.stages[0].endpoint.control = PortSpec::VSock { cid: 16, port: 5000 };
    let encoded = m.to_bytes();
    let m2 = ShardManifest::from_bytes(&encoded).unwrap();
    match &m2.stages[0].endpoint.control {
        PortSpec::VSock { cid, port } => {
            assert_eq!(*cid, 16);
            assert_eq!(*port, 5000);
        }
        _ => panic!("expected VSock"),
    }
}

#[test]
fn num_layers_and_element_size() {
    let m = make_manifest(2, 4);
    assert_eq!(m.stages[1].num_layers(), 4);
    assert_eq!(ActivationDType::F32.element_size(), 4);
    assert_eq!(ActivationDType::F16.element_size(), 2);
    assert_eq!(ActivationDType::BF16.element_size(), 2);
}
