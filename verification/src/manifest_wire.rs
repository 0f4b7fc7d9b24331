//! The on-disk and on-wire form of the shard manifest and its parts.
//!
//! The same deterministic tagged encoding as the control protocol: every
//! structure is a fixed field order over the codec primitives, lists are
//! count-prefixed, and sum types carry a leading tag byte. Decoding
//! undoes encoding exactly; the manifest-level round trip is proved in
//! [`law_manifest_round_trip`].

use vstd::prelude::*;

use crate::codec::{
    dec_str, dec_u32, dec_u64, dec_usize, enc_str, enc_u32, enc_u64, enc_usize, spec_dec_str,
    spec_dec_u32, spec_dec_u64, spec_dec_usize, spec_enc_str, spec_enc_u32, spec_enc_u64,
    spec_enc_usize, suffix_from, wf_str, lemma_dec_str_enc, lemma_dec_u32_enc, lemma_dec_u64_enc,
    lemma_dec_usize_enc,
};
use crate::error::ManifestError;
use crate::manifest::{
    spec_validate, ActivationDType, ActivationSpec, ActivationSpecV, Measurement, MeasurementV,
    PortSpec, PortSpecV, ShardManifest, ShardManifestV, StageEndpoint, StageEndpointV, StageSpec,
    StageSpecV,
};
use vstd::bytes::{lemma_auto_spec_u32_to_from_le_bytes, lemma_auto_spec_u64_to_from_le_bytes};

verus! {

/// Encoding of a port spec: a tag byte, then the variant's fields.
pub open spec fn spec_enc_port(p: PortSpecV) -> Seq<u8> {
    match p {
        PortSpecV::Tcp { addr } => seq![1u8] + spec_enc_str(addr),
        PortSpecV::VSock { cid, port } => seq![2u8] + spec_enc_u32(cid) + spec_enc_u32(port),
    }
}

/// Decode a port spec from the front of `s`.
pub open spec fn spec_dec_port(s: Seq<u8>) -> Option<(PortSpecV, int)> {
    if s.len() < 1 {
        None
    } else {
        let r0 = suffix_from(s, 1);
        if s[0] == 1u8 {
            match spec_dec_str(r0) {
                Some((addr, n)) => Some((PortSpecV::Tcp { addr }, 1 + n)),
                None => None,
            }
        } else if s[0] == 2u8 {
            match spec_dec_u32(r0) {
                Some((cid, n1)) => {
                    match spec_dec_u32(suffix_from(r0, n1)) {
                        Some((port, n2)) => Some((PortSpecV::VSock { cid, port }, 1 + n1 + n2)),
                        None => None,
                    }
                },
                None => None,
            }
        } else {
            None
        }
    }
}

/// A port spec is encodable when its address fits the length prefix.
pub open spec fn wf_port(p: PortSpecV) -> bool {
    match p {
        PortSpecV::Tcp { addr } => wf_str(addr),
        PortSpecV::VSock { .. } => true,
    }
}

/// Decoding a port spec undoes encoding it, whatever follows.
pub proof fn lemma_dec_port_enc(p: PortSpecV, rest: Seq<u8>)
    requires
        wf_port(p),
    ensures
        spec_dec_port(spec_enc_port(p) + rest) == Some((p, spec_enc_port(p).len() as int)),
{
    lemma_auto_spec_u64_to_from_le_bytes();
    lemma_auto_spec_u32_to_from_le_bytes();
    let s = spec_enc_port(p) + rest;
    match p {
        PortSpecV::Tcp { addr } => {
            let e1 = spec_enc_str(addr);
            assert(suffix_from(s, 1) =~= e1 + rest);
            lemma_dec_str_enc(addr, rest);
        },
        PortSpecV::VSock { cid, port } => {
            let e1 = spec_enc_u32(cid);
            let e2 = spec_enc_u32(port);
            let r0 = suffix_from(s, 1);
            assert(r0 =~= e1 + (e2 + rest));
            lemma_dec_u32_enc(cid, e2 + rest);
            assert(suffix_from(r0, 4) =~= e2 + rest);
            lemma_dec_u32_enc(port, rest);
        },
    }
}

/// Encoding of a stage endpoint: its three ports in order.
pub open spec fn spec_enc_endpoint(e: StageEndpointV) -> Seq<u8> {
    spec_enc_port(e.control) + spec_enc_port(e.data_in) + spec_enc_port(e.data_out)
}

/// Decode a stage endpoint from the front of `s`.
pub open spec fn spec_dec_endpoint(s: Seq<u8>) -> Option<(StageEndpointV, int)> {
    match spec_dec_port(s) {
        Some((control, n1)) => match spec_dec_port(suffix_from(s, n1)) {
            Some((data_in, n2)) => match spec_dec_port(suffix_from(s, n1 + n2)) {
                Some((data_out, n3)) => Some(
                    (StageEndpointV { control, data_in, data_out }, n1 + n2 + n3),
                ),
                None => None,
            },
            None => None,
        },
        None => None,
    }
}

/// An endpoint is encodable when its three ports are.
pub open spec fn wf_endpoint(e: StageEndpointV) -> bool {
    wf_port(e.control) && wf_port(e.data_in) && wf_port(e.data_out)
}

/// Decoding an endpoint undoes encoding it, whatever follows.
pub proof fn lemma_dec_endpoint_enc(e: StageEndpointV, rest: Seq<u8>)
    requires
        wf_endpoint(e),
    ensures
        spec_dec_endpoint(spec_enc_endpoint(e) + rest) == Some(
            (e, spec_enc_endpoint(e).len() as int),
        ),
{
    let e1 = spec_enc_port(e.control);
    let e2 = spec_enc_port(e.data_in);
    let e3 = spec_enc_port(e.data_out);
    let s = spec_enc_endpoint(e) + rest;
    assert(s =~= e1 + (e2 + (e3 + rest)));
    lemma_dec_port_enc(e.control, e2 + (e3 + rest));
    assert(suffix_from(s, e1.len() as int) =~= e2 + (e3 + rest));
    lemma_dec_port_enc(e.data_in, e3 + rest);
    assert(suffix_from(s, e1.len() as int + e2.len()) =~= e3 + rest);
    lemma_dec_port_enc(e.data_out, rest);
}

/// Encoding of an activation dtype: one tag byte.
pub open spec fn spec_enc_dtype(d: ActivationDType) -> Seq<u8> {
    match d {
        ActivationDType::F32 => seq![1u8],
        ActivationDType::F16 => seq![2u8],
        ActivationDType::BF16 => seq![3u8],
    }
}

/// Decode an activation dtype from the front of `s`.
pub open spec fn spec_dec_dtype(s: Seq<u8>) -> Option<(ActivationDType, int)> {
    if s.len() < 1 {
        None
    } else if s[0] == 1u8 {
        Some((ActivationDType::F32, 1int))
    } else if s[0] == 2u8 {
        Some((ActivationDType::F16, 1int))
    } else if s[0] == 3u8 {
        Some((ActivationDType::BF16, 1int))
    } else {
        None
    }
}

/// Decoding a dtype undoes encoding it, whatever follows.
pub proof fn lemma_dec_dtype_enc(d: ActivationDType, rest: Seq<u8>)
    ensures
        spec_dec_dtype(spec_enc_dtype(d) + rest) == Some((d, 1int)),
{
}

/// Encoding of an activation spec: dtype, hidden dim, max sequence length.
pub open spec fn spec_enc_activation(a: ActivationSpecV) -> Seq<u8> {
    spec_enc_dtype(a.dtype) + spec_enc_u32(a.hidden_dim) + spec_enc_u32(a.max_seq_len)
}

/// Decode an activation spec from the front of `s`.
pub open spec fn spec_dec_activation(s: Seq<u8>) -> Option<(ActivationSpecV, int)> {
    match spec_dec_dtype(s) {
        Some((dtype, n1)) => match spec_dec_u32(suffix_from(s, n1)) {
            Some((hidden_dim, n2)) => match spec_dec_u32(suffix_from(s, n1 + n2)) {
                Some((max_seq_len, n3)) => Some(
                    (ActivationSpecV { dtype, hidden_dim, max_seq_len }, n1 + n2 + n3),
                ),
                None => None,
            },
            None => None,
        },
        None => None,
    }
}

/// Decoding an activation spec undoes encoding it, whatever follows.
pub proof fn lemma_dec_activation_enc(a: ActivationSpecV, rest: Seq<u8>)
    ensures
        spec_dec_activation(spec_enc_activation(a) + rest) == Some(
            (a, spec_enc_activation(a).len() as int),
        ),
{
    lemma_auto_spec_u32_to_from_le_bytes();
    let e1 = spec_enc_dtype(a.dtype);
    let e2 = spec_enc_u32(a.hidden_dim);
    let e3 = spec_enc_u32(a.max_seq_len);
    let s = spec_enc_activation(a) + rest;
    assert(s =~= e1 + (e2 + (e3 + rest)));
    lemma_dec_dtype_enc(a.dtype, e2 + (e3 + rest));
    assert(suffix_from(s, 1) =~= e2 + (e3 + rest));
    lemma_dec_u32_enc(a.hidden_dim, e3 + rest);
    assert(suffix_from(s, 5) =~= e3 + rest);
    lemma_dec_u32_enc(a.max_seq_len, rest);
}

/// Encoding of one measurement: register index, then the hex value.
pub open spec fn spec_enc_measurement(m: MeasurementV) -> Seq<u8> {
    spec_enc_usize(m.register) + spec_enc_str(m.hex_value)
}

/// Decode one measurement from the front of `s`.
pub open spec fn spec_dec_measurement(s: Seq<u8>) -> Option<(MeasurementV, int)> {
    match spec_dec_usize(s) {
        Some((register, n1)) => match spec_dec_str(suffix_from(s, n1)) {
            Some((hex_value, n2)) => Some((MeasurementV { register, hex_value }, n1 + n2)),
            None => None,
        },
        None => None,
    }
}

/// A measurement is encodable when its hex value fits the length prefix.
pub open spec fn wf_measurement(m: MeasurementV) -> bool {
    wf_str(m.hex_value)
}

/// Decoding a measurement undoes encoding it, whatever follows.
pub proof fn lemma_dec_measurement_enc(m: MeasurementV, rest: Seq<u8>)
    requires
        wf_measurement(m),
    ensures
        spec_dec_measurement(spec_enc_measurement(m) + rest) == Some(
            (m, spec_enc_measurement(m).len() as int),
        ),
{
    lemma_auto_spec_u64_to_from_le_bytes();
    let e1 = spec_enc_usize(m.register);
    let e2 = spec_enc_str(m.hex_value);
    let s = spec_enc_measurement(m) + rest;
    assert(s =~= e1 + (e2 + rest));
    lemma_dec_usize_enc(m.register, e2 + rest);
    assert(suffix_from(s, 8) =~= e2 + rest);
    lemma_dec_str_enc(m.hex_value, rest);
}

/// Body of a text list: the elements' encodings, in order.
pub open spec fn spec_enc_str_list_body(l: Seq<Seq<char>>) -> Seq<u8>
    decreases l.len(),
{
    if l.len() == 0 {
        Seq::<u8>::empty()
    } else {
        spec_enc_str(l[0]) + spec_enc_str_list_body(l.drop_first())
    }
}

/// Decode `count` text elements from the front of `s`.
pub open spec fn spec_dec_str_list_body(s: Seq<u8>, count: int) -> Option<(Seq<Seq<char>>, int)>
    decreases count,
{
    if count <= 0 {
        Some((Seq::<Seq<char>>::empty(), 0int))
    } else {
        match spec_dec_str(s) {
            Some((x, n)) => match spec_dec_str_list_body(suffix_from(s, n), count - 1) {
                Some((l, m)) => Some((seq![x] + l, n + m)),
                None => None,
            },
            None => None,
        }
    }
}

/// Every element of a text list is encodable.
pub open spec fn wf_str_list(l: Seq<Seq<char>>) -> bool {
    forall|i: int| 0 <= i < l.len() ==> wf_str(#[trigger] l[i])
}

/// Decoding a text list body undoes encoding it, whatever follows.
pub proof fn lemma_dec_str_list_body_enc(l: Seq<Seq<char>>, rest: Seq<u8>)
    requires
        wf_str_list(l),
    ensures
        spec_dec_str_list_body(spec_enc_str_list_body(l) + rest, l.len() as int) == Some(
            (l, spec_enc_str_list_body(l).len() as int),
        ),
    decreases l.len(),
{
    lemma_auto_spec_u64_to_from_le_bytes();
    if l.len() == 0 {
        assert(spec_enc_str_list_body(l) + rest =~= rest);
        assert(Seq::<Seq<char>>::empty() =~= l);
    } else {
        let e0 = spec_enc_str(l[0]);
        let eb = spec_enc_str_list_body(l.drop_first());
        let s = spec_enc_str_list_body(l) + rest;
        assert(s =~= e0 + (eb + rest));
        lemma_dec_str_enc(l[0], eb + rest);
        assert(suffix_from(s, e0.len() as int) =~= eb + rest);
        lemma_dec_str_list_body_enc(l.drop_first(), rest);
        assert(seq![l[0]] + l.drop_first() =~= l);
    }
}

/// Body of a measurement list: the elements' encodings, in order.
pub open spec fn spec_enc_meas_list_body(l: Seq<MeasurementV>) -> Seq<u8>
    decreases l.len(),
{
    if l.len() == 0 {
        Seq::<u8>::empty()
    } else {
        spec_enc_measurement(l[0]) + spec_enc_meas_list_body(l.drop_first())
    }
}

/// Decode `count` measurements from the front of `s`.
pub open spec fn spec_dec_meas_list_body(s: Seq<u8>, count: int) -> Option<(Seq<MeasurementV>, int)>
    decreases count,
{
    if count <= 0 {
        Some((Seq::<MeasurementV>::empty(), 0int))
    } else {
        match spec_dec_measurement(s) {
            Some((x, n)) => match spec_dec_meas_list_body(suffix_from(s, n), count - 1) {
                Some((l, m)) => Some((seq![x] + l, n + m)),
                None => None,
            },
            None => None,
        }
    }
}

/// Every element of a measurement list is encodable.
pub open spec fn wf_meas_list(l: Seq<MeasurementV>) -> bool {
    forall|i: int| 0 <= i < l.len() ==> wf_measurement(#[trigger] l[i])
}

/// Decoding a measurement list body undoes encoding it, whatever follows.
pub proof fn lemma_dec_meas_list_body_enc(l: Seq<MeasurementV>, rest: Seq<u8>)
    requires
        wf_meas_list(l),
    ensures
        spec_dec_meas_list_body(spec_enc_meas_list_body(l) + rest, l.len() as int) == Some(
            (l, spec_enc_meas_list_body(l).len() as int),
        ),
    decreases l.len(),
{
    lemma_auto_spec_u64_to_from_le_bytes();
    if l.len() == 0 {
        assert(spec_enc_meas_list_body(l) + rest =~= rest);
        assert(Seq::<MeasurementV>::empty() =~= l);
    } else {
        let e0 = spec_enc_measurement(l[0]);
        let eb = spec_enc_meas_list_body(l.drop_first());
        let s = spec_enc_meas_list_body(l) + rest;
        assert(s =~= e0 + (eb + rest));
        lemma_dec_measurement_enc(l[0], eb + rest);
        assert(suffix_from(s, e0.len() as int) =~= eb + rest);
        lemma_dec_meas_list_body_enc(l.drop_first(), rest);
        assert(seq![l[0]] + l.drop_first() =~= l);
    }
}

/// Encoding of one stage spec: its three indices, the weight-hash list,
/// the measurement list, and the endpoint.
pub open spec fn spec_enc_stage_spec(v: StageSpecV) -> Seq<u8> {
    spec_enc_usize(v.stage_idx) + spec_enc_usize(v.layer_start) + spec_enc_usize(v.layer_end)
        + spec_enc_u64(v.weight_hashes.len() as u64) + spec_enc_str_list_body(v.weight_hashes)
        + spec_enc_u64(v.expected_measurements.len() as u64) + spec_enc_meas_list_body(
        v.expected_measurements,
    ) + spec_enc_endpoint(v.endpoint)
}

/// Decode one stage spec from the front of `s`.
pub open spec fn spec_dec_stage_spec(s: Seq<u8>) -> Option<(StageSpecV, int)> {
    match spec_dec_usize(s) {
        Some((stage_idx, n1)) => match spec_dec_usize(suffix_from(s, n1)) {
            Some((layer_start, n2)) => match spec_dec_usize(suffix_from(s, n1 + n2)) {
                Some((layer_end, n3)) => match spec_dec_u64(suffix_from(s, n1 + n2 + n3)) {
                    Some((whc, n4)) => match spec_dec_str_list_body(
                        suffix_from(s, n1 + n2 + n3 + n4),
                        whc as int,
                    ) {
                        Some((weight_hashes, n5)) => match spec_dec_u64(
                            suffix_from(s, n1 + n2 + n3 + n4 + n5),
                        ) {
                            Some((mc, n6)) => match spec_dec_meas_list_body(
                                suffix_from(s, n1 + n2 + n3 + n4 + n5 + n6),
                                mc as int,
                            ) {
                                Some((expected_measurements, n7)) => match spec_dec_endpoint(
                                    suffix_from(s, n1 + n2 + n3 + n4 + n5 + n6 + n7),
                                ) {
                                    Some((endpoint, n8)) => Some(
                                        (
                                            StageSpecV {
                                                stage_idx,
                                                layer_start,
                                                layer_end,
                                                weight_hashes,
                                                expected_measurements,
                                                endpoint,
                                            },
                                            n1 + n2 + n3 + n4 + n5 + n6 + n7 + n8,
                                        ),
                                    ),
                                    None => None,
                                },
                                None => None,
                            },
                            None => None,
                        },
                        None => None,
                    },
                    None => None,
                },
                None => None,
            },
            None => None,
        },
        None => None,
    }
}

/// A stage spec is encodable when its lists fit their count prefixes and
/// their elements are encodable.
pub open spec fn wf_stage_spec(v: StageSpecV) -> bool {
    &&& v.weight_hashes.len() <= u64::MAX
    &&& wf_str_list(v.weight_hashes)
    &&& v.expected_measurements.len() <= u64::MAX
    &&& wf_meas_list(v.expected_measurements)
    &&& wf_endpoint(v.endpoint)
}

/// Decoding a stage spec undoes encoding it, whatever follows.
#[verifier::rlimit(100)]
#[verifier::spinoff_prover]
pub proof fn lemma_dec_stage_spec_enc(v: StageSpecV, rest: Seq<u8>)
    requires
        wf_stage_spec(v),
    ensures
        spec_dec_stage_spec(spec_enc_stage_spec(v) + rest) == Some(
            (v, spec_enc_stage_spec(v).len() as int),
        ),
{
    lemma_auto_spec_u64_to_from_le_bytes();
    let e1 = spec_enc_usize(v.stage_idx);
    let e2 = spec_enc_usize(v.layer_start);
    let e3 = spec_enc_usize(v.layer_end);
    let e4 = spec_enc_u64(v.weight_hashes.len() as u64);
    let e5 = spec_enc_str_list_body(v.weight_hashes);
    let e6 = spec_enc_u64(v.expected_measurements.len() as u64);
    let e7 = spec_enc_meas_list_body(v.expected_measurements);
    let e8 = spec_enc_endpoint(v.endpoint);
    let s = spec_enc_stage_spec(v) + rest;
    assert(s =~= e1 + (e2 + (e3 + (e4 + (e5 + (e6 + (e7 + (e8 + rest))))))));
    lemma_dec_usize_enc(v.stage_idx, e2 + (e3 + (e4 + (e5 + (e6 + (e7 + (e8 + rest)))))));
    assert(suffix_from(s, 8) =~= e2 + (e3 + (e4 + (e5 + (e6 + (e7 + (e8 + rest)))))));
    lemma_dec_usize_enc(v.layer_start, e3 + (e4 + (e5 + (e6 + (e7 + (e8 + rest))))));
    assert(suffix_from(s, 16) =~= e3 + (e4 + (e5 + (e6 + (e7 + (e8 + rest))))));
    lemma_dec_usize_enc(v.layer_end, e4 + (e5 + (e6 + (e7 + (e8 + rest)))));
    assert(suffix_from(s, 24) =~= e4 + (e5 + (e6 + (e7 + (e8 + rest)))));
    lemma_dec_u64_enc(v.weight_hashes.len() as u64, e5 + (e6 + (e7 + (e8 + rest))));
    assert(suffix_from(s, 32) =~= e5 + (e6 + (e7 + (e8 + rest))));
    lemma_dec_str_list_body_enc(v.weight_hashes, e6 + (e7 + (e8 + rest)));
    assert(suffix_from(s, 32 + e5.len() as int) =~= e6 + (e7 + (e8 + rest)));
    lemma_dec_u64_enc(v.expected_measurements.len() as u64, e7 + (e8 + rest));
    assert(suffix_from(s, 40 + e5.len() as int) =~= e7 + (e8 + rest));
    lemma_dec_meas_list_body_enc(v.expected_measurements, e8 + rest);
    assert(suffix_from(s, 40 + e5.len() as int + e7.len()) =~= e8 + rest);
    lemma_dec_endpoint_enc(v.endpoint, rest);
}

/// Body of a stage-spec list: the elements' encodings, in order.
pub open spec fn spec_enc_stage_list_body(l: Seq<StageSpecV>) -> Seq<u8>
    decreases l.len(),
{
    if l.len() == 0 {
        Seq::<u8>::empty()
    } else {
        spec_enc_stage_spec(l[0]) + spec_enc_stage_list_body(l.drop_first())
    }
}

/// Decode `count` stage specs from the front of `s`.
pub open spec fn spec_dec_stage_list_body(s: Seq<u8>, count: int) -> Option<(Seq<StageSpecV>, int)>
    decreases count,
{
    if count <= 0 {
        Some((Seq::<StageSpecV>::empty(), 0int))
    } else {
        match spec_dec_stage_spec(s) {
            Some((x, n)) => match spec_dec_stage_list_body(suffix_from(s, n), count - 1) {
                Some((l, m)) => Some((seq![x] + l, n + m)),
                None => None,
            },
            None => None,
        }
    }
}

/// Every element of a stage-spec list is encodable.
pub open spec fn wf_stage_list(l: Seq<StageSpecV>) -> bool {
    forall|i: int| 0 <= i < l.len() ==> wf_stage_spec(#[trigger] l[i])
}

/// Decoding a stage-spec list body undoes encoding it, whatever follows.
pub proof fn lemma_dec_stage_list_body_enc(l: Seq<StageSpecV>, rest: Seq<u8>)
    requires
        wf_stage_list(l),
    ensures
        spec_dec_stage_list_body(spec_enc_stage_list_body(l) + rest, l.len() as int) == Some(
            (l, spec_enc_stage_list_body(l).len() as int),
        ),
    decreases l.len(),
{
    lemma_auto_spec_u64_to_from_le_bytes();
    if l.len() == 0 {
        assert(spec_enc_stage_list_body(l) + rest =~= rest);
        assert(Seq::<StageSpecV>::empty() =~= l);
    } else {
        let e0 = spec_enc_stage_spec(l[0]);
        let eb = spec_enc_stage_list_body(l.drop_first());
        let s = spec_enc_stage_list_body(l) + rest;
        assert(s =~= e0 + (eb + rest));
        lemma_dec_stage_spec_enc(l[0], eb + rest);
        assert(suffix_from(s, e0.len() as int) =~= eb + rest);
        lemma_dec_stage_list_body_enc(l.drop_first(), rest);
        assert(seq![l[0]] + l.drop_first() =~= l);
    }
}

/// Encoding of a whole manifest: names, layer total, the stage list, and
/// the activation spec.
pub open spec fn spec_enc_manifest(v: ShardManifestV) -> Seq<u8> {
    spec_enc_str(v.model_name) + spec_enc_str(v.model_version) + spec_enc_usize(v.total_layers)
        + spec_enc_u64(v.stages.len() as u64) + spec_enc_stage_list_body(v.stages)
        + spec_enc_activation(v.activation_spec)
}

/// Decode a whole manifest; the entire buffer must be consumed.
pub open spec fn spec_dec_manifest(s: Seq<u8>) -> Option<ShardManifestV> {
    match spec_dec_str(s) {
        Some((model_name, n1)) => match spec_dec_str(suffix_from(s, n1)) {
            Some((model_version, n2)) => match spec_dec_usize(suffix_from(s, n1 + n2)) {
                Some((total_layers, n3)) => match spec_dec_u64(suffix_from(s, n1 + n2 + n3)) {
                    Some((sc, n4)) => match spec_dec_stage_list_body(
                        suffix_from(s, n1 + n2 + n3 + n4),
                        sc as int,
                    ) {
                        Some((stages, n5)) => match spec_dec_activation(
                            suffix_from(s, n1 + n2 + n3 + n4 + n5),
                        ) {
                            Some((activation_spec, n6)) => if n1 + n2 + n3 + n4 + n5 + n6
                                == s.len() {
                                Some(
                                    ShardManifestV {
                                        model_name,
                                        model_version,
                                        total_layers,
                                        stages,
                                        activation_spec,
                                    },
                                )
                            } else {
                                None
                            },
                            None => None,
                        },
                        None => None,
                    },
                    None => None,
                },
                None => None,
            },
            None => None,
        },
        None => None,
    }
}

/// A manifest is encodable when its texts and lists fit their prefixes
/// and every stage is encodable.
pub open spec fn wf_manifest_enc(v: ShardManifestV) -> bool {
    &&& wf_str(v.model_name)
    &&& wf_str(v.model_version)
    &&& v.stages.len() <= u64::MAX
    &&& wf_stage_list(v.stages)
}

/// Round trip: decoding an encoded manifest yields the manifest back,
/// losslessly, for every manifest. The encoding is a spec-level function
/// of the manifest alone, so it is deterministic.
#[verifier::rlimit(100)]
pub proof fn law_manifest_round_trip(v: ShardManifestV)
    requires
        wf_manifest_enc(v),
    ensures
        spec_dec_manifest(spec_enc_manifest(v)) == Some(v),
{
    lemma_auto_spec_u64_to_from_le_bytes();
    let e1 = spec_enc_str(v.model_name);
    let e2 = spec_enc_str(v.model_version);
    let e3 = spec_enc_usize(v.total_layers);
    let e4 = spec_enc_u64(v.stages.len() as u64);
    let e5 = spec_enc_stage_list_body(v.stages);
    let e6 = spec_enc_activation(v.activation_spec);
    let empty = Seq::<u8>::empty();
    let s = spec_enc_manifest(v);
    assert(s =~= e1 + (e2 + (e3 + (e4 + (e5 + (e6 + empty))))));
    lemma_dec_str_enc(v.model_name, e2 + (e3 + (e4 + (e5 + (e6 + empty)))));
    assert(suffix_from(s, e1.len() as int) =~= e2 + (e3 + (e4 + (e5 + (e6 + empty)))));
    lemma_dec_str_enc(v.model_version, e3 + (e4 + (e5 + (e6 + empty))));
    assert(suffix_from(s, e1.len() as int + e2.len()) =~= e3 + (e4 + (e5 + (e6 + empty))));
    lemma_dec_usize_enc(v.total_layers, e4 + (e5 + (e6 + empty)));
    assert(suffix_from(s, e1.len() as int + e2.len() + 8) =~= e4 + (e5 + (e6 + empty)));
    lemma_dec_u64_enc(v.stages.len() as u64, e5 + (e6 + empty));
    assert(suffix_from(s, e1.len() as int + e2.len() + 16) =~= e5 + (e6 + empty));
    lemma_dec_stage_list_body_enc(v.stages, e6 + empty);
    assert(suffix_from(s, e1.len() as int + e2.len() + 16 + e5.len()) =~= e6 + empty);
    lemma_dec_activation_enc(v.activation_spec, empty);
}


/// Decode exactly one stage spec, consuming the whole buffer.
pub open spec fn spec_dec_stage_spec_exact(s: Seq<u8>) -> Option<StageSpecV> {
    match spec_dec_stage_spec(s) {
        Some((v, n)) => if n == s.len() {
            Some(v)
        } else {
            None
        },
        None => None,
    }
}

/// Decode exactly one activation spec, consuming the whole buffer.
pub open spec fn spec_dec_activation_exact(s: Seq<u8>) -> Option<ActivationSpecV> {
    match spec_dec_activation(s) {
        Some((v, n)) => if n == s.len() {
            Some(v)
        } else {
            None
        },
        None => None,
    }
}

/// Round trip: decoding an encoded stage spec yields the spec back.
pub proof fn law_stage_spec_round_trip(v: StageSpecV)
    requires
        wf_stage_spec(v),
    ensures
        spec_dec_stage_spec_exact(spec_enc_stage_spec(v)) == Some(v),
{
    let empty = Seq::<u8>::empty();
    lemma_dec_stage_spec_enc(v, empty);
    assert(spec_enc_stage_spec(v) + empty =~= spec_enc_stage_spec(v));
}

/// Round trip: decoding an encoded activation spec yields the spec back.
pub proof fn law_activation_round_trip(v: ActivationSpecV)
    ensures
        spec_dec_activation_exact(spec_enc_activation(v)) == Some(v),
{
    let empty = Seq::<u8>::empty();
    lemma_dec_activation_enc(v, empty);
    assert(spec_enc_activation(v) + empty =~= spec_enc_activation(v));
}

/// Append the encoding of a port spec to `buf`.
fn enc_port(buf: &mut Vec<u8>, p: &PortSpec)
    ensures
        final(buf)@ == old(buf)@ + spec_enc_port(p@),
        wf_port(p@),
{
    match p {
        PortSpec::Tcp { addr } => {
            buf.push(1u8);
            enc_str(buf, addr.as_str());
        },
        PortSpec::VSock { cid, port } => {
            buf.push(2u8);
            enc_u32(buf, *cid);
            enc_u32(buf, *port);
        },
    }
    let _total: usize = buf.len();
    proof {
        lemma_auto_spec_u64_to_from_le_bytes();
        assert(final(buf)@ =~= old(buf)@ + spec_enc_port(p@));
    }
}

/// Append the encoding of a stage endpoint to `buf`.
fn enc_endpoint(buf: &mut Vec<u8>, e: &StageEndpoint)
    ensures
        final(buf)@ == old(buf)@ + spec_enc_endpoint(e@),
        wf_endpoint(e@),
{
    enc_port(buf, &e.control);
    enc_port(buf, &e.data_in);
    enc_port(buf, &e.data_out);
    assert(final(buf)@ =~= old(buf)@ + spec_enc_endpoint(e@));
}

/// Append the encoding of an activation dtype to `buf`.
fn enc_dtype(buf: &mut Vec<u8>, d: ActivationDType)
    ensures
        final(buf)@ == old(buf)@ + spec_enc_dtype(d),
{
    match d {
        ActivationDType::F32 => buf.push(1u8),
        ActivationDType::F16 => buf.push(2u8),
        ActivationDType::BF16 => buf.push(3u8),
    }
    assert(final(buf)@ =~= old(buf)@ + spec_enc_dtype(d));
}

/// Append the encoding of one measurement to `buf`.
fn enc_measurement(buf: &mut Vec<u8>, m: &Measurement)
    ensures
        final(buf)@ == old(buf)@ + spec_enc_measurement(m@),
        wf_measurement(m@),
{
    enc_usize(buf, m.register);
    enc_str(buf, m.hex_value.as_str());
    let _total: usize = buf.len();
    proof {
        lemma_auto_spec_u64_to_from_le_bytes();
        assert(final(buf)@ =~= old(buf)@ + spec_enc_measurement(m@));
    }
}

/// Append the encodings of `l[from..]` to `buf`.
fn enc_str_list(buf: &mut Vec<u8>, l: &Vec<String>, from: usize)
    requires
        from <= l@.len(),
    ensures
        final(buf)@ == old(buf)@ + spec_enc_str_list_body(l.deep_view().skip(from as int)),
        wf_str_list(l.deep_view().skip(from as int)),
    decreases l@.len() - from,
{
    let ghost tail = l.deep_view().skip(from as int);
    if from == l.len() {
        assert(tail =~= Seq::<Seq<char>>::empty());
        assert(final(buf)@ =~= old(buf)@ + spec_enc_str_list_body(tail));
    } else {
        enc_str(buf, l[from].as_str());
        let _total: usize = buf.len();
        proof {
            lemma_auto_spec_u64_to_from_le_bytes();
        }
        enc_str_list(buf, l, from + 1);
        proof {
            assert(l.deep_view().skip(from as int + 1) =~= tail.drop_first());
            assert(tail[0] == l.deep_view()[from as int]);
            assert(final(buf)@ =~= old(buf)@ + spec_enc_str_list_body(tail));
            assert forall|i: int| 0 <= i < tail.len() implies wf_str(#[trigger] tail[i]) by {
                if i > 0 {
                    assert(tail[i] == tail.drop_first()[i - 1]);
                }
            }
        }
    }
}

/// Append the encodings of `l[from..]` to `buf`.
fn enc_meas_list(buf: &mut Vec<u8>, l: &Vec<Measurement>, from: usize)
    requires
        from <= l@.len(),
    ensures
        final(buf)@ == old(buf)@ + spec_enc_meas_list_body(l.deep_view().skip(from as int)),
        wf_meas_list(l.deep_view().skip(from as int)),
    decreases l@.len() - from,
{
    let ghost tail = l.deep_view().skip(from as int);
    if from == l.len() {
        assert(tail =~= Seq::<MeasurementV>::empty());
        assert(final(buf)@ =~= old(buf)@ + spec_enc_meas_list_body(tail));
    } else {
        enc_measurement(buf, &l[from]);
        enc_meas_list(buf, l, from + 1);
        proof {
            assert(l.deep_view().skip(from as int + 1) =~= tail.drop_first());
            assert(tail[0] == l.deep_view()[from as int]);
            assert(final(buf)@ =~= old(buf)@ + spec_enc_meas_list_body(tail));
            assert forall|i: int| 0 <= i < tail.len() implies wf_measurement(#[trigger] tail[i])
                by {
                if i > 0 {
                    assert(tail[i] == tail.drop_first()[i - 1]);
                }
            }
        }
    }
}

/// Append the encoding of one stage spec to `buf`.
fn enc_stage_spec(buf: &mut Vec<u8>, v: &StageSpec)
    ensures
        final(buf)@ == old(buf)@ + spec_enc_stage_spec(v@),
        wf_stage_spec(v@),
{
    enc_usize(buf, v.stage_idx);
    enc_usize(buf, v.layer_start);
    enc_usize(buf, v.layer_end);
    enc_u64(buf, v.weight_hashes.len() as u64);
    enc_str_list(buf, &v.weight_hashes, 0);
    enc_u64(buf, v.expected_measurements.len() as u64);
    enc_meas_list(buf, &v.expected_measurements, 0);
    enc_endpoint(buf, &v.endpoint);
    proof {
        assert(v.weight_hashes.deep_view().skip(0) =~= v@.weight_hashes);
        assert(v.expected_measurements.deep_view().skip(0) =~= v@.expected_measurements);
        assert(final(buf)@ =~= old(buf)@ + spec_enc_stage_spec(v@));
    }
}

/// Append the encodings of `l[from..]` to `buf`.
fn enc_stage_list(buf: &mut Vec<u8>, l: &Vec<StageSpec>, from: usize)
    requires
        from <= l@.len(),
    ensures
        final(buf)@ == old(buf)@ + spec_enc_stage_list_body(l.deep_view().skip(from as int)),
        wf_stage_list(l.deep_view().skip(from as int)),
    decreases l@.len() - from,
{
    let ghost tail = l.deep_view().skip(from as int);
    if from == l.len() {
        assert(tail =~= Seq::<StageSpecV>::empty());
        assert(final(buf)@ =~= old(buf)@ + spec_enc_stage_list_body(tail));
    } else {
        enc_stage_spec(buf, &l[from]);
        enc_stage_list(buf, l, from + 1);
        proof {
            assert(l.deep_view().skip(from as int + 1) =~= tail.drop_first());
            assert(tail[0] == l.deep_view()[from as int]);
            assert(final(buf)@ =~= old(buf)@ + spec_enc_stage_list_body(tail));
            assert forall|i: int| 0 <= i < tail.len() implies wf_stage_spec(#[trigger] tail[i])
                by {
                if i > 0 {
                    assert(tail[i] == tail.drop_first()[i - 1]);
                }
            }
        }
    }
}


/// Decode an activation dtype at position `pos` of `data`.
fn dec_dtype(data: &[u8], pos: usize) -> (r: Option<(ActivationDType, usize)>)
    requires
        pos <= data@.len(),
    ensures
        r matches Some(rv) ==> pos <= rv.1 <= data@.len(),
        match spec_dec_dtype(suffix_from(data@, pos as int)) {
            Some(v) => r == Some((v.0, (pos + v.1) as usize)),
            None => r is None,
        },
{
    if data.len() - pos >= 1 {
        let b = data[pos];
        assert(b == suffix_from(data@, pos as int)[0]);
        if b == 1u8 {
            Some((ActivationDType::F32, pos + 1))
        } else if b == 2u8 {
            Some((ActivationDType::F16, pos + 1))
        } else if b == 3u8 {
            Some((ActivationDType::BF16, pos + 1))
        } else {
            None
        }
    } else {
        None
    }
}

/// Decode a port spec at position `pos` of `data`.
fn dec_port(data: &[u8], pos: usize) -> (r: Option<(PortSpec, usize)>)
    requires
        pos <= data@.len(),
    ensures
        r matches Some(rv) ==> pos <= rv.1 <= data@.len(),
        match spec_dec_port(suffix_from(data@, pos as int)) {
            Some(v) => r matches Some(rv) && rv.0@ == v.0 && rv.1 == pos + v.1,
            None => r is None,
        },
{
    let ghost tail = suffix_from(data@, pos as int);
    if data.len() - pos < 1 {
        return None;
    }
    let tag = data[pos];
    assert(tag == tail[0]);
    proof {
        assert(suffix_from(data@, pos as int + 1) =~= suffix_from(tail, 1));
    }
    if tag == 1u8 {
        match dec_str(data, pos + 1) {
            Some((addr, p1)) => Some((PortSpec::Tcp { addr }, p1)),
            None => None,
        }
    } else if tag == 2u8 {
        match dec_u32(data, pos + 1) {
            Some((cid, p1)) => {
                proof {
                    assert(suffix_from(data@, p1 as int) =~= suffix_from(
                        suffix_from(tail, 1),
                        p1 - pos - 1,
                    ));
                }
                match dec_u32(data, p1) {
                    Some((port, p2)) => Some((PortSpec::VSock { cid, port }, p2)),
                    None => None,
                }
            },
            None => None,
        }
    } else {
        None
    }
}

/// Decode a stage endpoint at position `pos` of `data`.
fn dec_endpoint(data: &[u8], pos: usize) -> (r: Option<(StageEndpoint, usize)>)
    requires
        pos <= data@.len(),
    ensures
        r matches Some(rv) ==> pos <= rv.1 <= data@.len(),
        match spec_dec_endpoint(suffix_from(data@, pos as int)) {
            Some(v) => r matches Some(rv) && rv.0@ == v.0 && rv.1 == pos + v.1,
            None => r is None,
        },
{
    let _n: usize = data.len();
    let ghost tail = suffix_from(data@, pos as int);
    match dec_port(data, pos) {
        Some((control, p1)) => {
            proof {
                assert(suffix_from(data@, p1 as int) =~= suffix_from(tail, p1 - pos));
            }
            match dec_port(data, p1) {
                Some((data_in, p2)) => {
                    proof {
                        assert(suffix_from(data@, p2 as int) =~= suffix_from(tail, p2 - pos));
                    }
                    match dec_port(data, p2) {
                        Some((data_out, p3)) => Some(
                            (StageEndpoint { control, data_in, data_out }, p3),
                        ),
                        None => None,
                    }
                },
                None => None,
            }
        },
        None => None,
    }
}

/// Decode an activation spec at position `pos` of `data`.
fn dec_activation(data: &[u8], pos: usize) -> (r: Option<(ActivationSpec, usize)>)
    requires
        pos <= data@.len(),
    ensures
        r matches Some(rv) ==> pos <= rv.1 <= data@.len(),
        match spec_dec_activation(suffix_from(data@, pos as int)) {
            Some(v) => r matches Some(rv) && rv.0@ == v.0 && rv.1 == pos + v.1,
            None => r is None,
        },
{
    let _n: usize = data.len();
    let ghost tail = suffix_from(data@, pos as int);
    match dec_dtype(data, pos) {
        Some((dtype, p1)) => {
            proof {
                assert(suffix_from(data@, p1 as int) =~= suffix_from(tail, p1 - pos));
            }
            match dec_u32(data, p1) {
                Some((hidden_dim, p2)) => {
                    proof {
                        assert(suffix_from(data@, p2 as int) =~= suffix_from(tail, p2 - pos));
                    }
                    match dec_u32(data, p2) {
                        Some((max_seq_len, p3)) => Some(
                            (ActivationSpec { dtype, hidden_dim, max_seq_len }, p3),
                        ),
                        None => None,
                    }
                },
                None => None,
            }
        },
        None => None,
    }
}

/// Decode one measurement at position `pos` of `data`.
fn dec_measurement(data: &[u8], pos: usize) -> (r: Option<(Measurement, usize)>)
    requires
        pos <= data@.len(),
    ensures
        r matches Some(rv) ==> pos <= rv.1 <= data@.len(),
        match spec_dec_measurement(suffix_from(data@, pos as int)) {
            Some(v) => r matches Some(rv) && rv.0@ == v.0 && rv.1 == pos + v.1,
            None => r is None,
        },
{
    let _n: usize = data.len();
    let ghost tail = suffix_from(data@, pos as int);
    match dec_usize(data, pos) {
        Some((register, p1)) => {
            proof {
                assert(suffix_from(data@, p1 as int) =~= suffix_from(tail, p1 - pos));
            }
            match dec_str(data, p1) {
                Some((hex_value, p2)) => Some((Measurement { register, hex_value }, p2)),
                None => None,
            }
        },
        None => None,
    }
}

/// Decode `count` text elements at position `pos` of `data`.
fn dec_str_list(data: &[u8], pos: usize, count: u64) -> (r: Option<(Vec<String>, usize)>)
    requires
        pos <= data@.len(),
    ensures
        r matches Some(rv) ==> pos <= rv.1 <= data@.len(),
        match spec_dec_str_list_body(suffix_from(data@, pos as int), count as int) {
            Some(v) => r matches Some(rv) && rv.0.deep_view() == v.0 && rv.1 == pos + v.1,
            None => r is None,
        },
    decreases count,
{
    let _n: usize = data.len();
    let ghost tail = suffix_from(data@, pos as int);
    if count == 0 {
        let empty: Vec<String> = Vec::new();
        assert(empty.deep_view() =~= Seq::<Seq<char>>::empty());
        return Some((empty, pos));
    }
    match dec_str(data, pos) {
        Some((x, p1)) => {
            proof {
                assert(suffix_from(data@, p1 as int) =~= suffix_from(tail, p1 - pos));
            }
            match dec_str_list(data, p1, count - 1) {
                Some((mut l, p2)) => {
                    let ghost lv = l.deep_view();
                    l.insert(0, x);
                    proof {
                        assert(l.deep_view() =~= seq![x@] + lv);
                    }
                    Some((l, p2))
                },
                None => None,
            }
        },
        None => None,
    }
}

/// Decode `count` measurements at position `pos` of `data`.
fn dec_meas_list(data: &[u8], pos: usize, count: u64) -> (r: Option<(Vec<Measurement>, usize)>)
    requires
        pos <= data@.len(),
    ensures
        r matches Some(rv) ==> pos <= rv.1 <= data@.len(),
        match spec_dec_meas_list_body(suffix_from(data@, pos as int), count as int) {
            Some(v) => r matches Some(rv) && rv.0.deep_view() == v.0 && rv.1 == pos + v.1,
            None => r is None,
        },
    decreases count,
{
    let _n: usize = data.len();
    let ghost tail = suffix_from(data@, pos as int);
    if count == 0 {
        let empty: Vec<Measurement> = Vec::new();
        assert(empty.deep_view() =~= Seq::<MeasurementV>::empty());
        return Some((empty, pos));
    }
    match dec_measurement(data, pos) {
        Some((x, p1)) => {
            proof {
                assert(suffix_from(data@, p1 as int) =~= suffix_from(tail, p1 - pos));
            }
            match dec_meas_list(data, p1, count - 1) {
                Some((mut l, p2)) => {
                    let ghost lv = l.deep_view();
                    let ghost xv = x@;
                    l.insert(0, x);
                    proof {
                        assert(l.deep_view() =~= seq![xv] + lv);
                    }
                    Some((l, p2))
                },
                None => None,
            }
        },
        None => None,
    }
}

/// Decode one stage spec at position `pos` of `data`.
#[verifier::rlimit(100)]
#[verifier::spinoff_prover]
fn dec_stage_spec(data: &[u8], pos: usize) -> (r: Option<(StageSpec, usize)>)
    requires
        pos <= data@.len(),
    ensures
        r matches Some(rv) ==> pos <= rv.1 <= data@.len(),
        match spec_dec_stage_spec(suffix_from(data@, pos as int)) {
            Some(v) => r matches Some(rv) && rv.0@ == v.0 && rv.1 == pos + v.1,
            None => r is None,
        },
{
    let _n: usize = data.len();
    let ghost tail = suffix_from(data@, pos as int);
    let r1 = dec_usize(data, pos);
    if r1.is_none() {
        return None;
    }
    let (stage_idx, p1) = r1.unwrap();
    proof {
        assert(suffix_from(data@, p1 as int) =~= suffix_from(tail, p1 - pos));
    }
    let r2 = dec_usize(data, p1);
    if r2.is_none() {
        return None;
    }
    let (layer_start, p2) = r2.unwrap();
    proof {
        assert(suffix_from(data@, p2 as int) =~= suffix_from(tail, p2 - pos));
    }
    let r3 = dec_usize(data, p2);
    if r3.is_none() {
        return None;
    }
    let (layer_end, p3) = r3.unwrap();
    proof {
        assert(suffix_from(data@, p3 as int) =~= suffix_from(tail, p3 - pos));
    }
    let r4 = dec_u64(data, p3);
    if r4.is_none() {
        return None;
    }
    let (whc, p4) = r4.unwrap();
    proof {
        assert(suffix_from(data@, p4 as int) =~= suffix_from(tail, p4 - pos));
    }
    let r5 = dec_str_list(data, p4, whc);
    if r5.is_none() {
        return None;
    }
    let (weight_hashes, p5) = r5.unwrap();
    proof {
        assert(suffix_from(data@, p5 as int) =~= suffix_from(tail, p5 - pos));
    }
    let r6 = dec_u64(data, p5);
    if r6.is_none() {
        return None;
    }
    let (mc, p6) = r6.unwrap();
    proof {
        assert(suffix_from(data@, p6 as int) =~= suffix_from(tail, p6 - pos));
    }
    let r7 = dec_meas_list(data, p6, mc);
    if r7.is_none() {
        return None;
    }
    let (expected_measurements, p7) = r7.unwrap();
    proof {
        assert(suffix_from(data@, p7 as int) =~= suffix_from(tail, p7 - pos));
    }
    let r8 = dec_endpoint(data, p7);
    if r8.is_none() {
        return None;
    }
    let (endpoint, p8) = r8.unwrap();
    Some(
        (
            StageSpec {
                stage_idx,
                layer_start,
                layer_end,
                weight_hashes,
                expected_measurements,
                endpoint,
            },
            p8,
        ),
    )
}

/// Decode `count` stage specs at position `pos` of `data`.
fn dec_stage_list(data: &[u8], pos: usize, count: u64) -> (r: Option<(Vec<StageSpec>, usize)>)
    requires
        pos <= data@.len(),
    ensures
        r matches Some(rv) ==> pos <= rv.1 <= data@.len(),
        match spec_dec_stage_list_body(suffix_from(data@, pos as int), count as int) {
            Some(v) => r matches Some(rv) && rv.0.deep_view() == v.0 && rv.1 == pos + v.1,
            None => r is None,
        },
    decreases count,
{
    let _n: usize = data.len();
    let ghost tail = suffix_from(data@, pos as int);
    if count == 0 {
        let empty: Vec<StageSpec> = Vec::new();
        assert(empty.deep_view() =~= Seq::<StageSpecV>::empty());
        return Some((empty, pos));
    }
    match dec_stage_spec(data, pos) {
        Some((x, p1)) => {
            proof {
                assert(suffix_from(data@, p1 as int) =~= suffix_from(tail, p1 - pos));
            }
            match dec_stage_list(data, p1, count - 1) {
                Some((mut l, p2)) => {
                    let ghost lv = l.deep_view();
                    let ghost xv = x@;
                    l.insert(0, x);
                    proof {
                        assert(l.deep_view() =~= seq![xv] + lv);
                    }
                    Some((l, p2))
                },
                None => None,
            }
        },
        None => None,
    }
}

impl StageSpec {
    /// Serialize to tagged bytes, as carried inside `Init`.
    pub fn to_bytes(&self) -> (r: Vec<u8>)
        ensures
            r@ == spec_enc_stage_spec(self@),
            spec_dec_stage_spec_exact(r@) == Some(self@),
    {
        let mut buf: Vec<u8> = Vec::new();
        enc_stage_spec(&mut buf, self);
        proof {
            law_stage_spec_round_trip(self@);
            assert(buf@ =~= spec_enc_stage_spec(self@));
        }
        buf
    }

    /// Deserialize from tagged bytes, as carried inside `Init`.
    pub fn from_bytes(data: &[u8]) -> (r: Result<Self, ManifestError>)
        ensures
            match spec_dec_stage_spec_exact(data@) {
                Some(v) => r matches Ok(m) && m@ == v,
                None => r == Err::<Self, _>(ManifestError::MalformedEncoding),
            },
    {
        match dec_stage_spec(data, 0) {
            Some((v, p)) => {
                proof {
                    assert(suffix_from(data@, 0) =~= data@);
                }
                if p == data.len() {
                    Ok(v)
                } else {
                    Err(ManifestError::MalformedEncoding)
                }
            },
            None => {
                proof {
                    assert(suffix_from(data@, 0) =~= data@);
                }
                Err(ManifestError::MalformedEncoding)
            },
        }
    }
}

impl ActivationSpec {
    /// Serialize to tagged bytes, as carried inside `Init`.
    pub fn to_bytes(&self) -> (r: Vec<u8>)
        ensures
            r@ == spec_enc_activation(self@),
            spec_dec_activation_exact(r@) == Some(self@),
    {
        let mut buf: Vec<u8> = Vec::new();
        enc_dtype(&mut buf, self.dtype);
        enc_u32(&mut buf, self.hidden_dim);
        enc_u32(&mut buf, self.max_seq_len);
        proof {
            law_activation_round_trip(self@);
            assert(buf@ =~= spec_enc_activation(self@));
        }
        buf
    }

    /// Deserialize from tagged bytes, as carried inside `Init`.
    pub fn from_bytes(data: &[u8]) -> (r: Result<Self, ManifestError>)
        ensures
            match spec_dec_activation_exact(data@) {
                Some(v) => r matches Ok(m) && m@ == v,
                None => r == Err::<Self, _>(ManifestError::MalformedEncoding),
            },
    {
        match dec_activation(data, 0) {
            Some((v, p)) => {
                proof {
                    assert(suffix_from(data@, 0) =~= data@);
                }
                if p == data.len() {
                    Ok(v)
                } else {
                    Err(ManifestError::MalformedEncoding)
                }
            },
            None => {
                proof {
                    assert(suffix_from(data@, 0) =~= data@);
                }
                Err(ManifestError::MalformedEncoding)
            },
        }
    }
}

impl ShardManifest {
    /// Serialize the whole manifest to its tagged byte form.
    pub fn to_bytes(&self) -> (r: Vec<u8>)
        ensures
            r@ == spec_enc_manifest(self@),
            spec_dec_manifest(r@) == Some(self@),
    {
        let mut buf: Vec<u8> = Vec::new();
        enc_str(&mut buf, self.model_name.as_str());
        enc_str(&mut buf, self.model_version.as_str());
        enc_usize(&mut buf, self.total_layers);
        enc_u64(&mut buf, self.stages.len() as u64);
        enc_stage_list(&mut buf, &self.stages, 0);
        enc_dtype(&mut buf, self.activation_spec.dtype);
        enc_u32(&mut buf, self.activation_spec.hidden_dim);
        enc_u32(&mut buf, self.activation_spec.max_seq_len);
        let _total: usize = buf.len();
        proof {
            lemma_auto_spec_u64_to_from_le_bytes();
            assert(self.stages.deep_view().skip(0) =~= self@.stages);
            assert(buf@ =~= spec_enc_manifest(self@));
            assert(wf_manifest_enc(self@));
            law_manifest_round_trip(self@);
        }
        buf
    }

    /// Deserialize a manifest from its tagged byte form and validate it:
    /// malformed bytes and invalid manifests are both rejected.
    #[verifier::rlimit(100)]
    pub fn from_bytes(data: &[u8]) -> (r: Result<Self, ManifestError>)
        ensures
            match spec_dec_manifest(data@) {
                Some(v) => match spec_validate(v) {
                    Ok(_) => r matches Ok(m) && m@ == v,
                    Err(e) => r == Err::<Self, _>(e),
                },
                None => r == Err::<Self, _>(ManifestError::MalformedEncoding),
            },
{
        let _n: usize = data.len();
        proof {
            assert(suffix_from(data@, 0) =~= data@);
        }
        let r1 = dec_str(data, 0);
        if r1.is_none() {
            return Err(ManifestError::MalformedEncoding);
        }
        let (model_name, p1) = r1.unwrap();
        let r2 = dec_str(data, p1);
        if r2.is_none() {
            return Err(ManifestError::MalformedEncoding);
        }
        let (model_version, p2) = r2.unwrap();
        proof {
            assert(suffix_from(data@, p1 as int) =~= suffix_from(data@, p1 as int));
        }
        let r3 = dec_usize(data, p2);
        if r3.is_none() {
            return Err(ManifestError::MalformedEncoding);
        }
        let (total_layers, p3) = r3.unwrap();
        let r4 = dec_u64(data, p3);
        if r4.is_none() {
            return Err(ManifestError::MalformedEncoding);
        }
        let (sc, p4) = r4.unwrap();
        let r5 = dec_stage_list(data, p4, sc);
        if r5.is_none() {
            return Err(ManifestError::MalformedEncoding);
        }
        let (stages, p5) = r5.unwrap();
        let r6 = dec_activation(data, p5);
        if r6.is_none() {
            return Err(ManifestError::MalformedEncoding);
        }
        let (activation_spec, p6) = r6.unwrap();
        if p6 != data.len() {
            return Err(ManifestError::MalformedEncoding);
        }
        let m = ShardManifest {
            model_name,
            model_version,
            total_layers,
            stages,
            activation_spec,
        };
        match m.validate() {
            Ok(_) => Ok(m),
            Err(e) => Err(e),
        }
    }
}

} // verus!
