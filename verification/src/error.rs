//! The errors of the store and how they are classified and rendered.

use vstd::prelude::*;
use vstd::string::StringExecFns;

verus! {

/// The operating system's I/O error. The store carries it through unread.
#[verifier::external_type_specification]
#[verifier::external_body]
pub struct ExIoError(std::io::Error);

/// The coarse class of a [`DocError`].
#[derive(Debug, Clone, Copy, PartialEq, Eq, Structural)]
pub enum ErrorType {
    /// The file could not be read, written or renamed.
    IO,
    /// A value or a snapshot could not be encoded or decoded.
    Serialization,
}

/// What can go wrong in the store.
#[derive(Debug)]
pub enum DocError {
    /// Reading, writing or renaming the snapshot file failed.
    IO(std::io::Error),
    /// A value or the snapshot could not be encoded.
    Serialization(String),
    /// Bytes could not be decoded into the expected shape.
    Deserialization(String),
}

impl DocError {
    /// The class of this error: `IO` for an I/O failure, `Serialization` for
    /// both encoding and decoding failures.
    pub open spec fn kind(self) -> ErrorType {
        match self {
            DocError::IO(_) => ErrorType::IO,
            _ => ErrorType::Serialization,
        }
    }

    /// The text of this error, for every variant but `IO`, whose text comes
    /// from the operating system.
    pub open spec fn text(self) -> Seq<char> {
        match self {
            DocError::IO(_) => Seq::empty(),
            DocError::Serialization(msg) => "Serialization err: "@ + msg@,
            DocError::Deserialization(msg) => "Deserialization err: "@ + msg@,
        }
    }

    pub fn get_type(&self) -> (t: ErrorType)
        ensures
            t == self.kind(),
    {
        match self {
            DocError::IO(_) => ErrorType::IO,
            _ => ErrorType::Serialization,
        }
    }

    /// Renders the error for a reader. An I/O error is rendered by the
    /// operating system's own description; the other two by a fixed prefix
    /// followed by the message.
    pub fn to_string(&self) -> (s: String)
        ensures
            !(self is IO) ==> s@ == self.text(),
    {
        match self {
            DocError::IO(err) => io_error_text(err),
            DocError::Serialization(msg) => String::from_str("Serialization err: ").concat(
                msg.as_str(),
            ),
            DocError::Deserialization(msg) => String::from_str("Deserialization err: ").concat(
                msg.as_str(),
            ),
        }
    }
}

impl From<std::io::Error> for DocError {
    fn from(value: std::io::Error) -> (e: Self) {
        DocError::IO(value)
    }
}

impl vstd::std_specs::convert::FromSpecImpl<std::io::Error> for DocError {
    open spec fn obeys_from_spec() -> bool {
        true
    }

    open spec fn from_spec(value: std::io::Error) -> Self {
        DocError::IO(value)
    }
}

/// `std::io::Error`'s `Display`: the description of an I/O error. The text
/// depends on the platform, so nothing is claimed of it.
#[verifier::external_body]
fn io_error_text(err: &std::io::Error) -> String {
    err.to_string()
}

} // verus!
