use vstd::prelude::*;

verus! {

/// Errors reported to the consumer of a device.
#[derive(Debug, PartialEq, Eq)]
pub enum Error {
    /// Address resolution or session establishment failed: the device is
    /// absent or unreachable.
    DeviceNotFound,
    /// Any other failure, with its diagnostic: a failed platform call, a
    /// refused handler registration, or a GATT request that did not succeed.
    Other(String),
}

/// What an `Error` says: its kind and its diagnostic text.
pub enum ErrorModel {
    DeviceNotFound,
    Other(Seq<char>),
}

impl View for Error {
    type V = ErrorModel;

    open spec fn view(&self) -> ErrorModel {
        match self {
            Error::DeviceNotFound => ErrorModel::DeviceNotFound,
            Error::Other(d) => ErrorModel::Other(d@),
        }
    }
}

/// A result with its error seen through the error's view.
pub open spec fn result_view<T>(r: Result<T, Error>) -> Result<T, ErrorModel> {
    match r {
        Ok(v) => Ok(v),
        Err(e) => Err(e@),
    }
}

/// An `Other` error with the text `d`.
pub fn other(d: &str) -> (r: Error)
    ensures
        r@ == ErrorModel::Other(d@),
{
    Error::Other(d.to_owned())
}

} // verus!
