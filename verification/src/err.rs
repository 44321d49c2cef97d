use vstd::prelude::*;
use vstd::std_specs::convert::FromSpecImpl;

verus! {

/// Why a bus transfer failed, as the transport reports it.
#[derive(Debug, Clone, Copy, PartialEq, Eq, Structural)]
pub enum TransferError {
    /// The transfer was cancelled.
    Cancelled,
    /// The endpoint is in a stall condition.
    Stall,
    /// The device was disconnected.
    Disconnected,
    /// Hardware issue or protocol violation.
    Fault,
    /// Unknown or system-specific failure.
    Unknown,
}

/// What can go wrong in an operation on the device.
#[derive(Debug, Clone, Copy, PartialEq, Eq)]
pub enum Error {
    /// The bus transfer failed; the transport's error is carried unchanged.
    Transfer(TransferError),
    /// A control query returned fewer bytes than the reply needs.
    Resp,
    /// The device declined the value of the named parameter.
    Param(&'static str),
}

impl From<TransferError> for Error {
    fn from(value: TransferError) -> (error: Error) {
        Error::Transfer(value)
    }
}

impl FromSpecImpl<TransferError> for Error {
    open spec fn obeys_from_spec() -> bool {
        true
    }

    open spec fn from_spec(value: TransferError) -> Error {
        Error::Transfer(value)
    }
}

pub type Result<T = (), E = Error> = core::result::Result<T, E>;

} // verus!
