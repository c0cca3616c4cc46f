//! Failures of the decoding pipeline.

use crate::fields::Field;
use vstd::prelude::*;

verus! {

/// `std::io::Error`, the error of a failed read. Opaque.
#[verifier::external_type_specification]
#[verifier::external_body]
pub struct ExIoError(std::io::Error);

/// A way in which a JSON document fails to be an account list.
#[derive(Clone, Copy, Debug, PartialEq, Eq, Structural)]
pub enum ShapeFault {
    /// The document is not an object.
    Document,
    /// The value under a group name is not an array.
    Group,
    /// An element of a group is not an object.
    Account,
    /// An account lacks a required field.
    Missing(Field),
    /// A field of an account holds a value of the wrong type or out of range.
    Mismatch(Field),
}

/// Why a decrypted text could not be decoded.
#[derive(Debug)]
pub enum DecodeCause {
    /// The text is not a JSON document.
    Syntax(serde_json::Error),
    /// The text is a JSON document of another shape.
    Shape(ShapeFault),
}

/// The stage of the pipeline at which decoding failed.
#[derive(Clone, Copy, Debug, PartialEq, Eq, Structural)]
pub enum ErrorKind {
    Io,
    Decrypt,
    EmptyPayload,
    Encoding,
    Decode,
}

/// A failed decode. The first stage that fails ends the decode.
#[derive(Debug)]
pub enum JdError {
    /// The container could not be read.
    Io(std::io::Error),
    /// The cipher rejected the container: its length is no whole number of blocks.
    Decrypt,
    /// The decrypted buffer holds no closing brace, so no document.
    EmptyPayload,
    /// The document's bytes are not UTF-8.
    Encoding(std::str::Utf8Error),
    /// The document is not the JSON of an account list.
    Decode(DecodeCause),
}

impl JdError {
    /// The stage at which this error arose.
    pub open spec fn kind_of(self) -> ErrorKind {
        match self {
            JdError::Io(_) => ErrorKind::Io,
            JdError::Decrypt => ErrorKind::Decrypt,
            JdError::EmptyPayload => ErrorKind::EmptyPayload,
            JdError::Encoding(_) => ErrorKind::Encoding,
            JdError::Decode(_) => ErrorKind::Decode,
        }
    }

    /// The stage at which this error arose.
    pub fn kind(&self) -> (kind: ErrorKind)
        ensures
            kind == self.kind_of(),
    {
        match self {
            JdError::Io(_) => ErrorKind::Io,
            JdError::Decrypt => ErrorKind::Decrypt,
            JdError::EmptyPayload => ErrorKind::EmptyPayload,
            JdError::Encoding(_) => ErrorKind::Encoding,
            JdError::Decode(_) => ErrorKind::Decode,
        }
    }
}

} // verus!
