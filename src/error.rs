use vstd::prelude::*;

verus! {

/// The ways in which a call into the colour engine, or its preparation, fails.
#[derive(Debug, Copy, Clone, PartialEq, Eq, Structural)]
pub enum Error {
    /// The engine returned no object: bad input or an unsupported combination.
    ObjectCreationError,
    /// Data that was asked for, or that a call needs, is absent or too short.
    MissingData,
    /// Text that cannot be represented in the target encoding.
    InvalidString,
}

/// A `Result` whose error is this library's `Error`.
pub type LCMSResult<T> = Result<T, Error>;

impl Error {
    /// A short English description of the error.
    pub fn message(&self) -> &'static str {
        match self {
            Error::ObjectCreationError => "Could not create the object.\nThe reason is not known, but it's usually caused by wrong input parameters.",
            Error::InvalidString => "String is not valid. Contains unsupported characters or is too long.",
            Error::MissingData => "Requested data is empty or does not exist.",
        }
    }
}

} // verus!
