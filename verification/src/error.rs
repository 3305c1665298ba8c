use vstd::prelude::*;

verus! {

/// The error type of `std::io`, as file operations and codecs report it.
/// Its content is opaque to the proofs: a value is only carried along.
#[verifier::external_type_specification]
#[verifier::external_body]
pub struct ExIoError(std::io::Error);

/// An error type used throughout the library.
///
/// Do not match on this type exhaustively, as new variants may be added in the future.
#[derive(Debug)]
pub enum Error {
    /// No entry is stored under the key.
    KeyNotFound,
    /// A budget of the strategy has no room for the value.
    LimitExceeded {
        /// The unit of the budget and, where there are several, its tier.
        limit_kind: String,
    },
    /// A file operation or a codec failed.
    IoError(std::io::Error),
    /// An error variant for custom implementations.
    Custom {
        /// The custom error message.
        message: String,
    },
}

impl From<std::io::Error> for Error {
    fn from(error: std::io::Error) -> (r: Error) {
        Error::IoError(error)
    }
}

impl vstd::std_specs::convert::FromSpecImpl<std::io::Error> for Error {
    open spec fn obeys_from_spec() -> bool {
        true
    }

    open spec fn from_spec(error: std::io::Error) -> Error {
        Error::IoError(error)
    }
}

impl Error {
    /// The error of a budget named `limit_kind` that has no room.
    pub fn limit_exceeded(limit_kind: &str) -> (error: Error)
        ensures
            error matches Error::LimitExceeded { limit_kind: kind } && kind@ == limit_kind@,
    {
        Error::LimitExceeded { limit_kind: limit_kind.to_owned() }
    }

    /// Turns what a codec returned into an answer of the library: bytes stay
    /// as they are, and the error of the codec becomes an
    /// [`Error::IoError`] that holds it.
    pub fn codec_answer(outcome: Result<Vec<u8>, std::io::Error>) -> (r: Result<Vec<u8>, Error>)
        ensures
            match outcome {
                Ok(bytes) => r matches Ok(out) && out == bytes,
                Err(cause) => r matches Err(Error::IoError(error)) && error == cause,
            },
    {
        match outcome {
            Ok(bytes) => Ok(bytes),
            Err(cause) => Err(Error::IoError(cause)),
        }
    }

    /// Whether this is [`Error::LimitExceeded`] for the budget named `limit_kind`.
    pub open spec fn is_limit_exceeded(&self, limit_kind: Seq<char>) -> bool {
        self matches Error::LimitExceeded { limit_kind: kind } && kind@ == limit_kind
    }
}

} // verus!
