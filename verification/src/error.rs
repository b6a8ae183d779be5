//! The error type of the editor's startup and I/O edges: either a
//! carried input/output error or a plain message.

use vstd::prelude::*;

verus! {

/// `std::io::Error` carries what the platform reported; the library
/// only stores and transports it, so the type is declared opaque.
#[verifier::external_type_specification]
#[verifier::external_body]
pub struct ExIoError(std::io::Error);

pub enum Error {
    Io(std::io::Error),
    Message(&'static str),
}

impl Error {
    /// Whether the error carries a platform report.
    pub fn is_io(&self) -> (r: bool)
        ensures
            r == (self matches Error::Io(_)),
    {
        match self {
            Error::Io(_) => true,
            Error::Message(_) => false,
        }
    }

    /// The message of a message error, or a fixed label for a carried
    /// platform error.
    pub fn message(&self) -> (r: &'static str)
        ensures
            self matches Error::Message(m) ==> r == m,
    {
        match self {
            Error::Io(_) => "input/output error",
            Error::Message(m) => m,
        }
    }
}

impl From<std::io::Error> for Error {
    fn from(error: std::io::Error) -> (r: Self) {
        Error::Io(error)
    }
}

impl vstd::std_specs::convert::FromSpecImpl<std::io::Error> for Error {
    open spec fn obeys_from_spec() -> bool {
        true
    }

    open spec fn from_spec(error: std::io::Error) -> Self {
        Error::Io(error)
    }
}

impl From<&'static str> for Error {
    fn from(message: &'static str) -> (r: Self) {
        Error::Message(message)
    }
}

impl vstd::std_specs::convert::FromSpecImpl<&'static str> for Error {
    open spec fn obeys_from_spec() -> bool {
        true
    }

    open spec fn from_spec(message: &'static str) -> Self {
        Error::Message(message)
    }
}

} // verus!
