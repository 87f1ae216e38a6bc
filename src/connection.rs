use vstd::prelude::*;
use crate::error::{other, result_view, Error, ErrorModel};
use crate::status::{status_error, status_outcome, CacheMode, CommunicationStatus, ConnectionStatus};

verus! {

/// What `connect` does after the connection state has been queried.
#[derive(Debug, PartialEq, Eq)]
pub enum ConnectStep {
    /// `connect` is over, with this result.
    Done(Result<(), Error>),
    /// Enumerate the services in this mode, to make the platform open a
    /// GATT connection; only the status of the answer matters.
    Discover(CacheMode),
}

/// What a `ConnectStep` says, with its error seen through the error's view.
pub enum ConnectStepModel {
    Done(Result<(), ErrorModel>),
    Discover(CacheMode),
}

impl View for ConnectStep {
    type V = ConnectStepModel;

    open spec fn view(&self) -> ConnectStepModel {
        match self {
            ConnectStep::Done(r) => ConnectStepModel::Done(result_view(*r)),
            ConnectStep::Discover(m) => ConnectStepModel::Discover(*m),
        }
    }
}

/// The answer of `is_connected` to a query of the device's connection
/// state; `query` is `Err` with the diagnostic where the query failed.
pub open spec fn connected_result_spec(query: Result<ConnectionStatus, String>) -> Result<bool, ErrorModel> {
    match query {
        Ok(s) => Ok(s == ConnectionStatus::Connected),
        Err(d) => Err(ErrorModel::Other(d@)),
    }
}

pub open spec fn connect_begin_spec(connected: Result<bool, ErrorModel>) -> ConnectStepModel {
    match connected {
        Ok(true) => ConnectStepModel::Done(Ok(())),
        Ok(false) => ConnectStepModel::Discover(CacheMode::Uncached),
        Err(e) => ConnectStepModel::Done(Err(e)),
    }
}

/// The result of `connect` once its enumeration has completed: `answer` is
/// `Err` with the diagnostic where the enumeration call failed, and
/// `Ok(None)` where its status could not be read.
pub open spec fn connect_complete_spec(answer: Result<Option<CommunicationStatus>, String>) -> Result<(), ErrorModel> {
    match answer {
        Ok(Some(s)) => status_outcome(s),
        Ok(None) => Err(ErrorModel::Other("the status of the enumeration could not be read"@)),
        Err(d) => Err(ErrorModel::Other(d@)),
    }
}

/// The value handed to the consumer's connection callback when the device
/// reports a change; `None` where the event came without a sender, and no
/// callback is made.
pub open spec fn connection_event_spec(sender_status: Option<Result<ConnectionStatus, String>>) -> Option<bool> {
    match sender_status {
        Some(Ok(s)) => Some(s == ConnectionStatus::Connected),
        Some(Err(_)) => Some(false),
        None => None,
    }
}

/// Answers `is_connected` from a query of the live device handle; nothing
/// is cached.
pub fn connected_result(query: Result<ConnectionStatus, String>) -> (r: Result<bool, Error>)
    ensures
        result_view(r) == connected_result_spec(query),
{
    match query {
        Ok(s) => Ok(s.is_connected()),
        Err(d) => Err(Error::Other(d)),
    }
}

/// First step of `connect`, from the answer of `is_connected`: an already
/// connected device needs no enumeration.
pub fn connect_begin(connected: Result<bool, Error>) -> (r: ConnectStep)
    ensures
        r@ == connect_begin_spec(result_view(connected)),
        connected == Ok::<bool, Error>(true) ==> r == ConnectStep::Done(Ok(())),
{
    match connected {
        Ok(true) => ConnectStep::Done(Ok(())),
        Ok(false) => ConnectStep::Discover(CacheMode::Uncached),
        Err(e) => ConnectStep::Done(Err(e)),
    }
}

/// Last step of `connect`: its result from the enumeration's answer.
pub fn connect_complete(answer: Result<Option<CommunicationStatus>, String>) -> (r: Result<(), Error>)
    ensures
        result_view(r) == connect_complete_spec(answer),
        r is Ok <==> answer == Ok::<Option<CommunicationStatus>, String>(
            Some(CommunicationStatus::Success),
        ),
{
    match answer {
        Ok(Some(s)) => s.to_result(),
        Ok(None) => Err(other("the status of the enumeration could not be read")),
        Err(d) => Err(Error::Other(d)),
    }
}

/// The value for the consumer's connection callback: connected exactly when
/// the reported state is `Connected`, and not connected where the state
/// could not be read.
pub fn connection_event(sender_status: Option<Result<ConnectionStatus, String>>) -> (r: Option<bool>)
    ensures
        r == connection_event_spec(sender_status),
{
    match sender_status {
        Some(Ok(s)) => Some(s.is_connected()),
        Some(Err(_)) => Some(false),
        None => None,
    }
}

/// A device that reports itself connected is connected again at once: the
/// first step finishes with `Ok` and asks for no enumeration.
pub proof fn lemma_connect_when_connected(query: Result<ConnectionStatus, String>)
    requires
        query == Ok::<ConnectionStatus, String>(ConnectionStatus::Connected),
    ensures
        connect_begin_spec(connected_result_spec(query)) == ConnectStepModel::Done(Ok(())),
        !(connect_begin_spec(connected_result_spec(query)) is Discover),
{
}

/// A connection attempt that enumerates succeeds exactly on a success
/// status, and otherwise fails with the `Other` error that the status stands
/// for.
pub proof fn lemma_connect_outcome(status: CommunicationStatus)
    ensures
        status == CommunicationStatus::Success ==> connect_complete_spec(Ok(Some(status))) == Ok::<
            (),
            ErrorModel,
        >(()),
        status != CommunicationStatus::Success ==> connect_complete_spec(Ok(Some(status))) == Err::<
            (),
            ErrorModel,
        >(status_error(status)),
        status != CommunicationStatus::Success ==> status_error(status) is Other,
{
}

} // verus!
