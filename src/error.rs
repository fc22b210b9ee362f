//! Errors of a whole command/response exchange, and the transport error that
//! they may carry.
use crate::{command, response};
use vstd::prelude::*;

verus! {

/// Relies on `std::io::Error` only as an opaque value: a transport failure is
/// carried to the caller unchanged and never inspected.
#[verifier::external_type_specification]
#[verifier::external_body]
pub struct ExIoError(std::io::Error);

/// Errors that can arise interfacing with a supply.
#[derive(Debug)]
pub enum Error {
    /// The command could not be written to the device.
    WritingCommand(command::Error),
    /// There was a problem getting a response back from the device.
    ReadingResponse(response::Error),
}

impl From<command::Error> for Error {
    fn from(e: command::Error) -> (r: Error) {
        Error::WritingCommand(e)
    }
}

impl vstd::std_specs::convert::FromSpecImpl<command::Error> for Error {
    open spec fn obeys_from_spec() -> bool {
        true
    }

    open spec fn from_spec(e: command::Error) -> Error {
        Error::WritingCommand(e)
    }
}

impl From<response::Error> for Error {
    fn from(e: response::Error) -> (r: Error) {
        Error::ReadingResponse(e)
    }
}

impl vstd::std_specs::convert::FromSpecImpl<response::Error> for Error {
    open spec fn obeys_from_spec() -> bool {
        true
    }

    open spec fn from_spec(e: response::Error) -> Error {
        Error::ReadingResponse(e)
    }
}

} // verus!
