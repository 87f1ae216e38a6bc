use vstd::prelude::*;
use crate::error::{other, result_view, Error, ErrorModel};

verus! {

/// Platform code of a successful GATT request.
pub const STATUS_SUCCESS: i32 = 0;

/// Platform code of a GATT request that the peripheral rejected.
pub const STATUS_PROTOCOL_ERROR: i32 = 2;

/// Platform code of a connected device.
pub const CONNECTION_CONNECTED: i32 = 1;

/// Outcome of a GATT enumeration request.
#[derive(Clone, Copy, Debug, PartialEq, Eq, Structural)]
pub enum CommunicationStatus {
    Success,
    ProtocolError,
    /// Any other failure, with the platform's status code.
    Failure(i32),
}

/// Link-layer connection state of a device, as the platform reports it.
#[derive(Clone, Copy, Debug, PartialEq, Eq, Structural)]
pub enum ConnectionStatus {
    Disconnected,
    Connected,
}

/// Whether an enumeration may be answered from the platform's cache.
#[derive(Clone, Copy, Debug, PartialEq, Eq, Structural)]
pub enum CacheMode {
    Cached,
    Uncached,
}

/// The status that a platform status code stands for.
pub open spec fn status_of_code(code: i32) -> CommunicationStatus {
    if code == STATUS_SUCCESS {
        CommunicationStatus::Success
    } else if code == STATUS_PROTOCOL_ERROR {
        CommunicationStatus::ProtocolError
    } else {
        CommunicationStatus::Failure(code)
    }
}

/// The error that a non-success status is reported as.
pub open spec fn status_error(s: CommunicationStatus) -> ErrorModel {
    match s {
        CommunicationStatus::ProtocolError => ErrorModel::Other(
            "the peripheral rejected the request with a protocol error"@,
        ),
        _ => ErrorModel::Other("the request did not complete successfully"@),
    }
}

/// What a request that completed with status `s` yields.
pub open spec fn status_outcome(s: CommunicationStatus) -> Result<(), ErrorModel> {
    if s == CommunicationStatus::Success {
        Ok(())
    } else {
        Err(status_error(s))
    }
}

impl CommunicationStatus {
    /// Reads a platform status code.
    pub fn from_code(code: i32) -> (r: CommunicationStatus)
        ensures
            r == status_of_code(code),
    {
        if code == STATUS_SUCCESS {
            CommunicationStatus::Success
        } else if code == STATUS_PROTOCOL_ERROR {
            CommunicationStatus::ProtocolError
        } else {
            CommunicationStatus::Failure(code)
        }
    }

    pub fn is_success(&self) -> (r: bool)
        ensures
            r == (*self == CommunicationStatus::Success),
    {
        match self {
            CommunicationStatus::Success => true,
            _ => false,
        }
    }

    /// The error that this status is reported as, where it is not a success.
    pub fn to_error(&self) -> (r: Error)
        ensures
            r@ == status_error(*self),
    {
        match self {
            CommunicationStatus::ProtocolError => other(
                "the peripheral rejected the request with a protocol error",
            ),
            _ => other("the request did not complete successfully"),
        }
    }

    /// `Ok` for a success, else the error that the status stands for.
    pub fn to_result(&self) -> (r: Result<(), Error>)
        ensures
            result_view(r) == status_outcome(*self),
    {
        if self.is_success() {
            Ok(())
        } else {
            Err(self.to_error())
        }
    }
}

impl ConnectionStatus {
    /// Reads a platform connection-status code: only the code of a
    /// connected device counts as connected.
    pub fn from_code(code: i32) -> (r: ConnectionStatus)
        ensures
            (r == ConnectionStatus::Connected) == (code == CONNECTION_CONNECTED),
    {
        if code == CONNECTION_CONNECTED {
            ConnectionStatus::Connected
        } else {
            ConnectionStatus::Disconnected
        }
    }

    pub fn is_connected(&self) -> (r: bool)
        ensures
            r == (*self == ConnectionStatus::Connected),
    {
        match self {
            ConnectionStatus::Connected => true,
            ConnectionStatus::Disconnected => false,
        }
    }
}

} // verus!
