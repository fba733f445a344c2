//! The one way in which reading a message can fail.

use vstd::prelude::*;
use vstd::std_specs::convert::FromSpecImpl;

verus! {

/// `serde_json::Error`, carried through verified code as an opaque value.
#[verifier::external_type_specification]
#[verifier::external_body]
pub struct ExJsonError(serde_json::Error);

/// The payload is not the encoding of a value of the type asked for: its
/// text is malformed, or its shape is not that of the type.
#[derive(Debug)]
pub struct DecodeError {
    /// What the decoder reported: the kind of fault, and the line and
    /// column at which it met it.
    pub cause: serde_json::Error,
}

impl From<serde_json::Error> for DecodeError {
    fn from(cause: serde_json::Error) -> (r: DecodeError) {
        DecodeError { cause }
    }
}

impl FromSpecImpl<serde_json::Error> for DecodeError {
    open spec fn obeys_from_spec() -> bool {
        true
    }

    open spec fn from_spec(cause: serde_json::Error) -> DecodeError {
        DecodeError { cause }
    }
}

/// What a decoder's outcome becomes for the caller: a decoded value is
/// handed on as it is, and a failure is wrapped with its cause kept.
pub open spec fn decoded_spec<T>(outcome: Result<T, serde_json::Error>) -> Result<T, DecodeError> {
    match outcome {
        Ok(value) => Ok(value),
        Err(cause) => Err(DecodeError { cause }),
    }
}

/// Turns a decoder's outcome into the library's own result.
pub fn decoded<T>(outcome: Result<T, serde_json::Error>) -> (r: Result<T, DecodeError>)
    ensures
        r == decoded_spec(outcome),
{
    match outcome {
        Ok(value) => Ok(value),
        Err(cause) => Err(DecodeError::from(cause)),
    }
}

} // verus!
