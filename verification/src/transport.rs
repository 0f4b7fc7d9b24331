//! Resolving manifest port specs into transport addresses.
//!
//! The core holds addresses as plain values; dialing, binding and
//! accepting live with the caller.

use vstd::prelude::*;

use crate::error::PipelineError;
use crate::manifest::{PortSpec, PortSpecV};

verus! {

/// Resolve a port spec to a vsock `(cid, port)` pair; a stream-socket
/// spec is an error.
pub fn resolve_vsock(spec: &PortSpec) -> (r: Result<(u32, u32), PipelineError>)
    ensures
        match spec@ {
            PortSpecV::VSock { cid, port } => r == Ok::<(u32, u32), PipelineError>((cid, port)),
            PortSpecV::Tcp { .. } => (r matches Err(e) && e is Protocol),
        },
{
    match spec {
        PortSpec::VSock { cid, port } => Ok((*cid, *port)),
        PortSpec::Tcp { .. } => Err(
            PipelineError::Protocol("expected a vsock port spec".to_owned()),
        ),
    }
}

/// Resolve a port spec to a stream-socket address string; a vsock spec
/// is an error. Parsing the text into a socket address is the caller's.
pub fn tcp_addr(spec: &PortSpec) -> (r: Result<&String, PipelineError>)
    ensures
        match spec@ {
            PortSpecV::Tcp { addr } => (r matches Ok(a) && a@ == addr),
            PortSpecV::VSock { .. } => (r matches Err(e) && e is Protocol),
        },
{
    match spec {
        PortSpec::Tcp { addr } => Ok(addr),
        PortSpec::VSock { .. } => Err(
            PipelineError::Protocol("expected a stream-socket port spec".to_owned()),
        ),
    }
}

} // verus!
