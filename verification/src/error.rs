//! Failure kinds of a write call and the error that goes on the wire.

use crate::request::{Findings, ValidationFailure};
use vstd::prelude::*;
use vstd::std_specs::convert::FromSpecImpl;

verus! {

/// Message of an error that reports rejected parameters.
pub const INVALID_PARAMS_MESSAGE: &'static str = "invalid params";

/// Message of an error that reports a request outside the panel's geometry.
pub const VALIDATION_MESSAGE: &'static str = "validation error";

/// Message of an error that reports any other fault.
pub const INTERNAL_MESSAGE: &'static str = "internal error";

/// The parameters of a call could not be decoded into a request.
#[derive(Debug, PartialEq, Eq)]
pub struct DecodeFailure {
    /// What the decoder said.
    pub message: String,
}

/// Why a write call was not carried out.
#[allow(inconsistent_fields)]
#[derive(Debug, PartialEq, Eq)]
pub enum WriteError {
    /// The request decoded, and validation rejected it.
    Invalid { e: ValidationFailure },
    /// Parameters were missing or malformed.
    MissingParams { e: DecodeFailure },
    /// Any other fault; `e` is its debug rendering.
    Internal { e: String },
}

/// Category of a wire error.
#[derive(Clone, Copy, Debug, PartialEq, Eq, Structural)]
pub enum ErrorCode {
    /// The call's parameters were rejected by the decoder.
    InvalidParams,
    /// The request was decoded and failed validation.
    Validation,
    /// Any other fault.
    Internal,
}

impl ErrorCode {
    /// The code's number on the wire.
    pub open spec fn spec_number(self) -> int {
        match self {
            ErrorCode::InvalidParams => -32602,
            ErrorCode::Validation => 1,
            ErrorCode::Internal => -32603,
        }
    }

    /// The code's number on the wire.
    pub fn number(self) -> (n: i64)
        ensures
            n == self.spec_number(),
    {
        match self {
            ErrorCode::InvalidParams => -32602,
            ErrorCode::Validation => 1,
            ErrorCode::Internal => -32603,
        }
    }
}

/// The error returned to the remote caller.
#[derive(Debug, PartialEq, Eq)]
pub struct Error {
    pub code: ErrorCode,
    pub message: &'static str,
    pub data: Option<String>,
}

/// A wire error as plain text.
pub struct Wire {
    pub code: ErrorCode,
    pub message: Seq<char>,
    pub data: Option<Seq<char>>,
}

impl View for Error {
    type V = Wire;

    open spec fn view(&self) -> Wire {
        Wire {
            code: self.code,
            message: self.message@,
            data: match self.data {
                Some(d) => Some(d@),
                None => None,
            },
        }
    }
}

/// The wire error for a request that validation rejected with `found`: its
/// data is the reason of the first field that failed.
pub open spec fn validation_wire(found: Findings) -> Wire {
    Wire { code: ErrorCode::Validation, message: VALIDATION_MESSAGE@, data: found.first() }
}

/// The wire error for parameters that the decoder rejected with `message`.
pub open spec fn decode_wire(message: Seq<char>) -> Wire {
    Wire { code: ErrorCode::InvalidParams, message: INVALID_PARAMS_MESSAGE@, data: Some(message) }
}

/// The wire error for any other fault, rendered as `fault`.
pub open spec fn internal_wire(fault: Seq<char>) -> Wire {
    Wire { code: ErrorCode::Internal, message: INTERNAL_MESSAGE@, data: Some(fault) }
}

impl WriteError {
    /// The wire error that stands for this failure.
    pub open spec fn wire(self) -> Wire {
        match self {
            WriteError::Invalid { e } => validation_wire(e@),
            WriteError::MissingParams { e } => decode_wire(e.message@),
            WriteError::Internal { e } => internal_wire(e@),
        }
    }
}

impl FromSpecImpl<WriteError> for Error {
    open spec fn obeys_from_spec() -> bool {
        true
    }

    open spec fn from_spec(err: WriteError) -> Error {
        match err {
            WriteError::Invalid { e } => Error {
                code: ErrorCode::Validation,
                message: VALIDATION_MESSAGE,
                data: Some(e.first_reason()),
            },
            WriteError::MissingParams { e } => Error {
                code: ErrorCode::InvalidParams,
                message: INVALID_PARAMS_MESSAGE,
                data: Some(e.message),
            },
            WriteError::Internal { e } => Error {
                code: ErrorCode::Internal,
                message: INTERNAL_MESSAGE,
                data: Some(e),
            },
        }
    }
}

impl From<WriteError> for Error {
    /// Maps each failure kind to its wire error. The mapping is total: every
    /// kind has one code, one message, and data.
    fn from(err: WriteError) -> (wire: Error)
        ensures
            wire@ == err.wire(),
    {
        match err {
            WriteError::Invalid { e } => Error {
                code: ErrorCode::Validation,
                message: VALIDATION_MESSAGE,
                data: Some(e.into_first_reason()),
            },
            WriteError::MissingParams { e } => Error {
                code: ErrorCode::InvalidParams,
                message: INVALID_PARAMS_MESSAGE,
                data: Some(e.message),
            },
            WriteError::Internal { e } => Error {
                code: ErrorCode::Internal,
                message: INTERNAL_MESSAGE,
                data: Some(e),
            },
        }
    }
}

} // verus!
