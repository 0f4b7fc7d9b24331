//! The shard manifest: the declarative contract that describes how a model
//! is split across pipeline stages, together with its validation rules.

use vstd::prelude::*;

use crate::error::ManifestError;

verus! {

/// Describes how a model is sharded across pipeline stages.
#[derive(Debug)]
pub struct ShardManifest {
    pub model_name: String,
    pub model_version: String,
    pub total_layers: usize,
    pub stages: Vec<StageSpec>,
    pub activation_spec: ActivationSpec,
}

/// Specification for a single pipeline stage (enclave).
#[derive(Debug)]
pub struct StageSpec {
    pub stage_idx: usize,
    /// First layer (inclusive).
    pub layer_start: usize,
    /// Last layer (exclusive).
    pub layer_end: usize,
    /// Hex-encoded hashes of the stage's model weight files.
    pub weight_hashes: Vec<String>,
    /// Expected attestation measurements, ordered by register index.
    pub expected_measurements: Vec<Measurement>,
    pub endpoint: StageEndpoint,
}

/// One expected attestation measurement: a register index and the
/// hex-encoded value that the remote enclave must report in it.
#[derive(Debug)]
pub struct Measurement {
    pub register: usize,
    pub hex_value: String,
}

/// Network endpoints for a stage's control and data channels.
#[derive(Debug)]
pub struct StageEndpoint {
    pub control: PortSpec,
    pub data_in: PortSpec,
    pub data_out: PortSpec,
}

/// Transport-level address for a port.
#[derive(Debug)]
pub enum PortSpec {
    Tcp { addr: String },
    VSock { cid: u32, port: u32 },
}

/// Describes the activation tensor format exchanged between stages.
#[derive(Debug)]
pub struct ActivationSpec {
    pub dtype: ActivationDType,
    pub hidden_dim: u32,
    pub max_seq_len: u32,
}

/// Data type for inter-stage activation tensors.
#[derive(Clone, Copy, PartialEq, Eq, Structural, Debug)]
pub enum ActivationDType {
    F32,
    F16,
    BF16,
}

/// Mathematical shape of a shard manifest.
pub ghost struct ShardManifestV {
    pub model_name: Seq<char>,
    pub model_version: Seq<char>,
    pub total_layers: usize,
    pub stages: Seq<StageSpecV>,
    pub activation_spec: ActivationSpecV,
}

/// Mathematical shape of a stage spec.
pub ghost struct StageSpecV {
    pub stage_idx: usize,
    pub layer_start: usize,
    pub layer_end: usize,
    pub weight_hashes: Seq<Seq<char>>,
    pub expected_measurements: Seq<MeasurementV>,
    pub endpoint: StageEndpointV,
}

/// Mathematical shape of a measurement.
pub ghost struct MeasurementV {
    pub register: usize,
    pub hex_value: Seq<char>,
}

/// Mathematical shape of a stage endpoint.
pub ghost struct StageEndpointV {
    pub control: PortSpecV,
    pub data_in: PortSpecV,
    pub data_out: PortSpecV,
}

/// Mathematical shape of a port spec.
pub ghost enum PortSpecV {
    Tcp { addr: Seq<char> },
    VSock { cid: u32, port: u32 },
}

/// Mathematical shape of an activation spec.
pub ghost struct ActivationSpecV {
    pub dtype: ActivationDType,
    pub hidden_dim: u32,
    pub max_seq_len: u32,
}

impl View for Measurement {
    type V = MeasurementV;

    open spec fn view(&self) -> MeasurementV {
        MeasurementV { register: self.register, hex_value: self.hex_value@ }
    }
}

impl DeepView for Measurement {
    type V = MeasurementV;

    open spec fn deep_view(&self) -> MeasurementV {
        self.view()
    }
}

impl View for PortSpec {
    type V = PortSpecV;

    open spec fn view(&self) -> PortSpecV {
        match self {
            PortSpec::Tcp { addr } => PortSpecV::Tcp { addr: addr@ },
            PortSpec::VSock { cid, port } => PortSpecV::VSock { cid: *cid, port: *port },
        }
    }
}

impl View for StageEndpoint {
    type V = StageEndpointV;

    open spec fn view(&self) -> StageEndpointV {
        StageEndpointV {
            control: self.control@,
            data_in: self.data_in@,
            data_out: self.data_out@,
        }
    }
}

impl View for ActivationSpec {
    type V = ActivationSpecV;

    open spec fn view(&self) -> ActivationSpecV {
        ActivationSpecV {
            dtype: self.dtype,
            hidden_dim: self.hidden_dim,
            max_seq_len: self.max_seq_len,
        }
    }
}

impl View for StageSpec {
    type V = StageSpecV;

    open spec fn view(&self) -> StageSpecV {
        StageSpecV {
            stage_idx: self.stage_idx,
            layer_start: self.layer_start,
            layer_end: self.layer_end,
            weight_hashes: self.weight_hashes.deep_view(),
            expected_measurements: self.expected_measurements.deep_view(),
            endpoint: self.endpoint@,
        }
    }
}

impl DeepView for StageSpec {
    type V = StageSpecV;

    open spec fn deep_view(&self) -> StageSpecV {
        self.view()
    }
}

impl View for ShardManifest {
    type V = ShardManifestV;

    open spec fn view(&self) -> ShardManifestV {
        ShardManifestV {
            model_name: self.model_name@,
            model_version: self.model_version@,
            total_layers: self.total_layers,
            stages: self.stages.deep_view(),
            activation_spec: self.activation_spec@,
        }
    }
}

/// A manifest is valid when its stages are non-empty, indexed by position,
/// have non-empty layer ranges that tile `[0, total_layers)` contiguously.
pub open spec fn valid_manifest(m: ShardManifestV) -> bool {
    &&& m.stages.len() > 0
    &&& (forall|i: int|
        0 <= i < m.stages.len() ==> #[trigger] m.stages[i].stage_idx == i)
    &&& (forall|i: int|
        0 <= i < m.stages.len() ==> (#[trigger] m.stages[i].layer_start)
            < m.stages[i].layer_end)
    &&& (forall|i: int|
        0 <= i < m.stages.len() - 1 ==> (#[trigger] m.stages[i].layer_end)
            == m.stages[i + 1].layer_start)
    &&& m.stages[0].layer_start == 0
    &&& m.stages[m.stages.len() - 1].layer_end == m.total_layers
}

/// The first per-stage fault at or after position `i`: a wrong `stage_idx`
/// field, or an empty layer range, whichever the scan meets first.
pub open spec fn first_stage_fault(stages: Seq<StageSpecV>, i: int) -> Option<ManifestError>
    decreases stages.len() - i,
{
    if i < 0 || i >= stages.len() {
        None
    } else if stages[i].stage_idx != i {
        Some(
            ManifestError::WrongStageIndex {
                stage_idx: i as usize,
                actual: stages[i].stage_idx,
            },
        )
    } else if stages[i].layer_start >= stages[i].layer_end {
        Some(
            ManifestError::InvalidLayerRange {
                stage_idx: i as usize,
                start: stages[i].layer_start,
                end: stages[i].layer_end,
            },
        )
    } else {
        first_stage_fault(stages, i + 1)
    }
}

/// The first contiguity gap at or after boundary `i` (between stage `i`
/// and stage `i + 1`).
pub open spec fn first_gap(stages: Seq<StageSpecV>, i: int) -> Option<ManifestError>
    decreases stages.len() - i,
{
    if i < 0 || i >= stages.len() - 1 {
        None
    } else if stages[i].layer_end != stages[i + 1].layer_start {
        Some(
            ManifestError::NonContiguousLayers {
                stage_idx: i as usize,
                end: stages[i].layer_end,
                next_start: stages[i + 1].layer_start,
            },
        )
    } else {
        first_gap(stages, i + 1)
    }
}

/// What `validate` returns: checks run in a fixed order and the first
/// violation is reported.
pub open spec fn spec_validate(m: ShardManifestV) -> Result<(), ManifestError> {
    if m.stages.len() == 0 {
        Err(ManifestError::EmptyStages)
    } else if first_stage_fault(m.stages, 0) is Some {
        Err(first_stage_fault(m.stages, 0)->Some_0)
    } else if first_gap(m.stages, 0) is Some {
        Err(first_gap(m.stages, 0)->Some_0)
    } else if m.stages[0].layer_start != 0 {
        Err(ManifestError::LayerStartNotZero { start: m.stages[0].layer_start })
    } else if m.stages[m.stages.len() - 1].layer_end != m.total_layers {
        Err(
            ManifestError::LayerCountMismatch {
                covered: m.stages[m.stages.len() - 1].layer_end,
                total: m.total_layers,
            },
        )
    } else {
        Ok(())
    }
}

proof fn lemma_first_stage_fault_none(stages: Seq<StageSpecV>, i: int)
    requires
        0 <= i <= stages.len(),
    ensures
        first_stage_fault(stages, i) is None <==> ((forall|j: int|
            i <= j < stages.len() ==> #[trigger] stages[j].stage_idx == j) && (forall|j: int|
            i <= j < stages.len() ==> (#[trigger] stages[j].layer_start) < stages[j].layer_end)),
    decreases stages.len() - i,
{
    if i < stages.len() {
        lemma_first_stage_fault_none(stages, i + 1);
    }
}

proof fn lemma_first_gap_none(stages: Seq<StageSpecV>, i: int)
    requires
        0 <= i,
    ensures
        first_gap(stages, i) is None <==> (forall|j: int|
            i <= j < stages.len() - 1 ==> (#[trigger] stages[j].layer_end)
                == stages[j + 1].layer_start),
    decreases stages.len() - i,
{
    if i < stages.len() - 1 {
        lemma_first_gap_none(stages, i + 1);
    }
}

/// Validation succeeds exactly on valid manifests: stages non-empty,
/// indices equal to positions, every layer range non-empty, ranges
/// contiguous from layer 0, and covering `total_layers` exactly.
pub proof fn law_validate_iff_valid(m: ShardManifestV)
    ensures
        spec_validate(m) is Ok <==> valid_manifest(m),
{
    lemma_first_stage_fault_none(m.stages, 0);
    lemma_first_gap_none(m.stages, 0);
}

impl ShardManifest {
    /// Validate that stages are contiguous, correctly indexed, and cover
    /// all layers; the first violation in check order is reported.
    pub fn validate(&self) -> (r: Result<(), ManifestError>)
        ensures
            r == spec_validate(self@),
            r is Ok <==> valid_manifest(self@),
    {
        let ghost sv = self.stages.deep_view();
        proof {
            law_validate_iff_valid(self@);
        }
        if self.stages.len() == 0 {
            return Err(ManifestError::EmptyStages);
        }
        let n = self.stages.len();
        let mut i: usize = 0;
        while i < n
            invariant
                n == self.stages.len(),
                sv == self.stages.deep_view(),
                0 <= i <= n,
                first_stage_fault(sv, 0) == first_stage_fault(sv, i as int),
            decreases n - i,
        {
            let stage = &self.stages[i];
            if stage.stage_idx != i {
                return Err(
                    ManifestError::WrongStageIndex { stage_idx: i, actual: stage.stage_idx },
                );
            }
            if stage.layer_start >= stage.layer_end {
                return Err(
                    ManifestError::InvalidLayerRange {
                        stage_idx: i,
                        start: stage.layer_start,
                        end: stage.layer_end,
                    },
                );
            }
            i = i + 1;
        }
        let mut i: usize = 0;
        while i < n - 1
            invariant
                n == self.stages.len(),
                sv == self.stages.deep_view(),
                1 <= n,
                0 <= i <= n,
                first_stage_fault(sv, 0) is None,
                first_gap(sv, 0) == first_gap(sv, i as int),
            decreases n - i,
        {
            if self.stages[i].layer_end != self.stages[i + 1].layer_start {
                return Err(
                    ManifestError::NonContiguousLayers {
                        stage_idx: i,
                        end: self.stages[i].layer_end,
                        next_start: self.stages[i + 1].layer_start,
                    },
                );
            }
            i = i + 1;
        }
        if self.stages[0].layer_start != 0 {
            return Err(ManifestError::LayerStartNotZero { start: self.stages[0].layer_start });
        }
        if self.stages[n - 1].layer_end != self.total_layers {
            return Err(
                ManifestError::LayerCountMismatch {
                    covered: self.stages[n - 1].layer_end,
                    total: self.total_layers,
                },
            );
        }
        Ok(())
    }
}

impl StageSpec {
    /// Number of layers assigned to this stage.
    pub fn num_layers(&self) -> (r: usize)
        requires
            self.layer_start <= self.layer_end,
        ensures
            r == self.layer_end - self.layer_start,
    {
        self.layer_end - self.layer_start
    }
}

impl ActivationDType {
    /// Size of one element in bytes.
    pub fn element_size(self) -> (r: usize)
        ensures
            r == spec_element_size(self),
    {
        match self {
            ActivationDType::F32 => 4,
            ActivationDType::F16 => 2,
            ActivationDType::BF16 => 2,
        }
    }
}

/// Element size of each activation dtype.
pub open spec fn spec_element_size(d: ActivationDType) -> usize {
    match d {
        ActivationDType::F32 => 4usize,
        ActivationDType::F16 => 2usize,
        ActivationDType::BF16 => 2usize,
    }
}


/// Whether `b` is the ASCII code of a hex digit.
pub open spec fn is_hex_digit(b: u8) -> bool {
    (48 <= b <= 57) || (97 <= b <= 102) || (65 <= b <= 70)
}

/// The value of the hex digit with ASCII code `b`.
pub open spec fn hex_nibble(b: u8) -> u8
    recommends
        is_hex_digit(b),
{
    if 48 <= b <= 57 {
        (b - 48) as u8
    } else if 97 <= b <= 102 {
        (b - 87) as u8
    } else {
        (b - 55) as u8
    }
}

/// Decode a hex string (as UTF-8 bytes) into bytes: two digits per byte.
/// An odd length or a non-hex digit is malformed.
pub open spec fn spec_hex_decode(s: Seq<u8>) -> Option<Seq<u8>>
    decreases s.len(),
{
    if s.len() == 0 {
        Some(Seq::<u8>::empty())
    } else if s.len() == 1 {
        None
    } else if is_hex_digit(s[0]) && is_hex_digit(s[1]) {
        match spec_hex_decode(s.skip(2)) {
            Some(r) => Some(seq![(hex_nibble(s[0]) * 16 + hex_nibble(s[1])) as u8] + r),
            None => None,
        }
    } else {
        None
    }
}

/// Decode the hex digits of `b[from..]`, two per output byte.
fn hex_decode_from(b: &[u8], from: usize) -> (r: Option<Vec<u8>>)
    requires
        from <= b@.len(),
    ensures
        match spec_hex_decode(b@.skip(from as int)) {
            Some(v) => r matches Some(rv) && rv@ == v,
            None => r is None,
        },
    decreases b@.len() - from,
{
    let n = b.len();
    let ghost tail = b@.skip(from as int);
    if from == n {
        let empty: Vec<u8> = Vec::new();
        assert(empty@ =~= Seq::<u8>::empty());
        return Some(empty);
    }
    if n - from == 1 {
        return None;
    }
    let hi = b[from];
    let lo = b[from + 1];
    assert(hi == tail[0] && lo == tail[1]);
    let hi_ok = (48 <= hi && hi <= 57) || (97 <= hi && hi <= 102) || (65 <= hi && hi <= 70);
    let lo_ok = (48 <= lo && lo <= 57) || (97 <= lo && lo <= 102) || (65 <= lo && lo <= 70);
    if !(hi_ok && lo_ok) {
        return None;
    }
    let hv: u8 = if 48 <= hi && hi <= 57 {
        hi - 48
    } else if 97 <= hi && hi <= 102 {
        hi - 87
    } else {
        hi - 55
    };
    let lv: u8 = if 48 <= lo && lo <= 57 {
        lo - 48
    } else if 97 <= lo && lo <= 102 {
        lo - 87
    } else {
        lo - 55
    };
    let byte: u8 = hv * 16 + lv;
    proof {
        assert(b@.skip(from as int + 2) =~= tail.skip(2));
    }
    match hex_decode_from(b, from + 2) {
        Some(mut rest) => {
            let ghost restv = rest@;
            rest.insert(0, byte);
            proof {
                assert(rest@ =~= seq![byte] + restv);
            }
            Some(rest)
        },
        None => None,
    }
}

impl StageSpec {
    /// Convert the hex-encoded expected measurements into byte values,
    /// keeping the register order; a malformed hex string is an error.
    pub fn to_expected_measurements(&self) -> (r: Result<Vec<(usize, Vec<u8>)>, ManifestError>)
        ensures
            r is Ok <==> (forall|i: int|
                0 <= i < self.expected_measurements@.len() ==> spec_hex_decode(
                    vstd::utf8::encode_utf8(#[trigger] self.expected_measurements@[i]@.hex_value),
                ) is Some),
            r matches Ok(v) ==> {
                &&& v@.len() == self.expected_measurements@.len()
                &&& (forall|i: int|
                    0 <= i < v@.len() ==> (#[trigger] v@[i]).0
                        == self.expected_measurements@[i]@.register && Some(v@[i].1@)
                        == spec_hex_decode(
                        vstd::utf8::encode_utf8(self.expected_measurements@[i]@.hex_value),
                    ))
            },
            r is Err ==> r == Err::<Vec<(usize, Vec<u8>)>, _>(
                ManifestError::MalformedHex { stage_idx: self.stage_idx },
            ),
    {
        let mut out: Vec<(usize, Vec<u8>)> = Vec::new();
        let n = self.expected_measurements.len();
        let mut i: usize = 0;
        while i < n
            invariant
                n == self.expected_measurements@.len(),
                0 <= i <= n,
                out@.len() == i,
                forall|j: int|
                    0 <= j < i ==> spec_hex_decode(
                        vstd::utf8::encode_utf8(
                            #[trigger] self.expected_measurements@[j]@.hex_value,
                        ),
                    ) is Some,
                forall|j: int|
                    0 <= j < i ==> (#[trigger] out@[j]).0
                        == self.expected_measurements@[j]@.register && Some(out@[j].1@)
                        == spec_hex_decode(
                        vstd::utf8::encode_utf8(self.expected_measurements@[j]@.hex_value),
                    ),
            decreases n - i,
        {
            let m = &self.expected_measurements[i];
            let bytes = m.hex_value.as_str().as_bytes();
            proof {
                assert(bytes@.skip(0) =~= bytes@);
            }
            match hex_decode_from(bytes, 0) {
                Some(v) => {
                    out.push((m.register, v));
                },
                None => {
                    proof {
                        assert(spec_hex_decode(
                            vstd::utf8::encode_utf8(
                                self.expected_measurements@[i as int]@.hex_value,
                            ),
                        ) is None);
                    }
                    return Err(ManifestError::MalformedHex { stage_idx: self.stage_idx });
                },
            }
            i = i + 1;
        }
        Ok(out)
    }
}

} // verus!
