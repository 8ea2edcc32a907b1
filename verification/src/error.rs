//! The ways in which a call can fail.

use crate::response::{RPCError, RpcFailure};
use vstd::prelude::*;

verus! {

/// Why a call did not deliver a response.
#[derive(Debug, PartialEq, Eq)]
pub enum BusError {
    /// Opening, reading or writing the device failed, or the device had
    /// hung up when the channel was drained.
    Io,
    /// The byte stream is out of step: a frame did not start with the
    /// sentinel, the stream ended inside a frame, or a frame did not hold
    /// UTF-8. The channel should be given up.
    Framing,
    /// A well-formed frame did not hold a response: its text was not JSON,
    /// or the JSON was not of the expected shape. The channel stays usable.
    Protocol,
    /// The remote side reported a failure, or the request was too large to
    /// be sent.
    Rpc(RPCError),
}

/// The model of a [`BusError`].
pub enum BusFailure {
    Io,
    Framing,
    Protocol,
    Rpc(RpcFailure),
}

impl View for BusError {
    type V = BusFailure;

    open spec fn view(&self) -> BusFailure {
        match self {
            BusError::Io => BusFailure::Io,
            BusError::Framing => BusFailure::Framing,
            BusError::Protocol => BusFailure::Protocol,
            BusError::Rpc(e) => BusFailure::Rpc(e@),
        }
    }
}

} // verus!
