use vstd::prelude::*;

verus! {

/// The standard library's I/O error, carried unchanged inside [`Error::Io`].
#[verifier::external_type_specification]
#[verifier::external_body]
pub struct ExIoError(std::io::Error);

/// What can go wrong while asking the user for something.
#[derive(Debug)]
pub enum Error {
    /// Input was required, but the user entered nothing.
    NonOptionalInput,
    /// Reading from the input or writing to the output failed.
    Io(std::io::Error),
    /// The trimmed input could not be parsed into the requested type.
    ParseError(String),
    /// A menu was given no options to choose from.
    InvalidOptionSet,
}

impl From<std::io::Error> for Error {
    fn from(e: std::io::Error) -> (r: Error) {
        Error::Io(e)
    }
}

impl vstd::std_specs::convert::FromSpecImpl<std::io::Error> for Error {
    open spec fn obeys_from_spec() -> bool {
        true
    }

    open spec fn from_spec(e: std::io::Error) -> Error {
        Error::Io(e)
    }
}

/// The result type of this library, with [`Error`] as the default error.
pub type Result<T, E = Error> = core::result::Result<T, E>;

} // verus!
