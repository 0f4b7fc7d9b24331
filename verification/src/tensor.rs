//! The data-plane exchange values: named tensors and the messages that
//! carry them, with the two in-band byte markers.
//!
//! A tensor is a named, dtype-tagged, one-dimensional-shaped opaque byte
//! buffer; the core never reads its contents. On a data channel a stage
//! sends each micro-batch as a run of tensors closed by the `END` marker,
//! and announces a failure with the `ERR` marker so downstream readers
//! unblock.

use vstd::prelude::*;

verus! {

/// Data type tag of a tensor. The tag travels with the tensor; the core
/// never interprets the buffer behind it.
#[derive(Debug, Clone, Copy, PartialEq, Eq, Structural)]
pub enum TensorDType {
    F32,
    F64,
    F16,
    BF16,
    I32,
    I64,
    U8,
    U32,
}

/// An exchange tensor: UTF-8 name, dtype tag, one-dimensional shape, and
/// an opaque byte buffer.
#[derive(Debug)]
pub struct Tensor {
    pub name: String,
    pub dtype: TensorDType,
    pub shape: Vec<u32>,
    pub data: Vec<u8>,
}

/// Mathematical shape of a tensor.
pub ghost struct TensorV {
    pub name: Seq<char>,
    pub dtype: TensorDType,
    pub shape: Seq<u32>,
    pub data: Seq<u8>,
}

impl View for Tensor {
    type V = TensorV;

    open spec fn view(&self) -> TensorV {
        TensorV { name: self.name@, dtype: self.dtype, shape: self.shape@, data: self.data@ }
    }
}

impl DeepView for Tensor {
    type V = TensorV;

    open spec fn deep_view(&self) -> TensorV {
        self.view()
    }
}

/// One message observed on a secure data channel.
#[derive(Debug)]
pub enum DataMsg {
    /// An opaque byte payload; the markers travel this way.
    Data(Vec<u8>),
    /// A typed tensor.
    Tensor(Tensor),
    /// A heartbeat with no payload.
    Heartbeat,
    /// Peer-initiated shutdown.
    Shutdown,
    /// An error message from the peer.
    Error(String),
}

/// Mathematical shape of a data-channel message.
pub ghost enum DataMsgV {
    Data(Seq<u8>),
    Tensor(TensorV),
    Heartbeat,
    Shutdown,
    Error(Seq<char>),
}

impl View for DataMsg {
    type V = DataMsgV;

    open spec fn view(&self) -> DataMsgV {
        match self {
            DataMsg::Data(b) => DataMsgV::Data(b@),
            DataMsg::Tensor(t) => DataMsgV::Tensor(t@),
            DataMsg::Heartbeat => DataMsgV::Heartbeat,
            DataMsg::Shutdown => DataMsgV::Shutdown,
            DataMsg::Error(e) => DataMsgV::Error(e@),
        }
    }
}

/// The ASCII bytes of the end-of-micro-batch marker, `END`.
pub open spec fn end_marker_bytes() -> Seq<u8> {
    seq![69u8, 78u8, 68u8]
}

/// The ASCII bytes of the error sentinel, `ERR`.
pub open spec fn err_marker_bytes() -> Seq<u8> {
    seq![69u8, 82u8, 82u8]
}

/// Build the end-of-micro-batch marker.
pub fn end_marker() -> (r: Vec<u8>)
    ensures
        r@ == end_marker_bytes(),
{
    let mut v: Vec<u8> = Vec::new();
    v.push(69u8);
    v.push(78u8);
    v.push(68u8);
    assert(v@ =~= end_marker_bytes());
    v
}

/// Build the error sentinel.
pub fn err_marker() -> (r: Vec<u8>)
    ensures
        r@ == err_marker_bytes(),
{
    let mut v: Vec<u8> = Vec::new();
    v.push(69u8);
    v.push(82u8);
    v.push(82u8);
    assert(v@ =~= err_marker_bytes());
    v
}

/// How one data-channel message is to be treated.
#[derive(Debug, Clone, Copy, PartialEq, Eq, Structural)]
pub enum DataMsgClass {
    /// A tensor belonging to the current micro-batch.
    TensorItem,
    /// The `END` marker: the current micro-batch is complete.
    EndOfBatch,
    /// The `ERR` sentinel: a stage failed during the request.
    ErrorSentinel,
    /// The peer shut the channel down.
    ShutdownMsg,
    /// Anything else; the protocol does not allow it here.
    Unexpected,
}

/// Classification of a data-channel message.
pub open spec fn spec_classify_data_msg(m: DataMsgV) -> DataMsgClass {
    match m {
        DataMsgV::Tensor(_) => DataMsgClass::TensorItem,
        DataMsgV::Data(b) => if b == end_marker_bytes() {
            DataMsgClass::EndOfBatch
        } else if b == err_marker_bytes() {
            DataMsgClass::ErrorSentinel
        } else {
            DataMsgClass::Unexpected
        },
        DataMsgV::Shutdown => DataMsgClass::ShutdownMsg,
        DataMsgV::Heartbeat => DataMsgClass::Unexpected,
        DataMsgV::Error(_) => DataMsgClass::Unexpected,
    }
}

/// Classify one data-channel message: a tensor joins the current
/// micro-batch, `END` closes it, `ERR` reports a stage failure, and
/// anything else is out of protocol.
pub fn classify_data_msg(m: &DataMsg) -> (c: DataMsgClass)
    ensures
        c == spec_classify_data_msg(m@),
{
    match m {
        DataMsg::Tensor(_) => DataMsgClass::TensorItem,
        DataMsg::Data(b) => {
            if b.len() == 3 && b[0] == 69u8 && b[1] == 78u8 && b[2] == 68u8 {
                proof {
                    assert(b@ =~= end_marker_bytes());
                }
                DataMsgClass::EndOfBatch
            } else if b.len() == 3 && b[0] == 69u8 && b[1] == 82u8 && b[2] == 82u8 {
                proof {
                    assert(b@ =~= err_marker_bytes());
                }
                DataMsgClass::ErrorSentinel
            } else {
                proof {
                    if b@ == end_marker_bytes() {
                        assert(b@.len() == 3 && b@[0] == 69u8 && b@[1] == 78u8 && b@[2] == 68u8);
                    }
                    if b@ == err_marker_bytes() {
                        assert(b@.len() == 3 && b@[0] == 69u8 && b@[1] == 82u8 && b@[2] == 82u8);
                    }
                }
                DataMsgClass::Unexpected
            }
        },
        DataMsg::Shutdown => DataMsgClass::ShutdownMsg,
        DataMsg::Heartbeat => DataMsgClass::Unexpected,
        DataMsg::Error(_) => DataMsgClass::Unexpected,
    }
}

} // verus!
