//! Errors of reading from the network.

use vstd::prelude::*;

verus! {

/// `std::io::Error`, carried through unopened.
#[verifier::external_type_specification]
#[verifier::external_body]
pub struct ExIoError(std::io::Error);

/// `tokio::time::error::Elapsed`, carried through unopened.
#[verifier::external_type_specification]
#[verifier::external_body]
pub struct ExElapsed(tokio::time::error::Elapsed);

/// Why a read from the network failed.
pub enum IOReadErrorValue {
    /// The peer sent fewer bytes than were asked for.
    NotEnoughBytes,
    /// The operating system reported an error.
    IO(std::io::Error),
    /// The read took longer than it was allowed to.
    TimeoutError(tokio::time::error::Elapsed),
}

/// Error of a read from the network.
pub struct IOReadError {
    /// What went wrong.
    pub value: IOReadErrorValue,
}

impl From<IOReadErrorValue> for IOReadError {
    fn from(val: IOReadErrorValue) -> (r: Self) {
        IOReadError { value: val }
    }
}

impl vstd::std_specs::convert::FromSpecImpl<IOReadErrorValue> for IOReadError {
    open spec fn obeys_from_spec() -> bool {
        true
    }

    open spec fn from_spec(val: IOReadErrorValue) -> Self {
        IOReadError { value: val }
    }
}

impl From<std::io::Error> for IOReadError {
    fn from(error: std::io::Error) -> (r: Self) {
        IOReadError { value: IOReadErrorValue::IO(error) }
    }
}

impl vstd::std_specs::convert::FromSpecImpl<std::io::Error> for IOReadError {
    open spec fn obeys_from_spec() -> bool {
        true
    }

    open spec fn from_spec(error: std::io::Error) -> Self {
        IOReadError { value: IOReadErrorValue::IO(error) }
    }
}

impl From<tokio::time::error::Elapsed> for IOReadError {
    fn from(error: tokio::time::error::Elapsed) -> (r: Self) {
        IOReadError { value: IOReadErrorValue::TimeoutError(error) }
    }
}

impl vstd::std_specs::convert::FromSpecImpl<tokio::time::error::Elapsed> for IOReadError {
    open spec fn obeys_from_spec() -> bool {
        true
    }

    open spec fn from_spec(error: tokio::time::error::Elapsed) -> Self {
        IOReadError { value: IOReadErrorValue::TimeoutError(error) }
    }
}

} // verus!
