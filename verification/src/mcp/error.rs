//! Failures of an MCP call.

use vstd::prelude::*;
use crate::use_cases::{UseCaseError, UseCaseErrorKind, UseCaseErrorView};

verus! {

/// Code of a failure.
#[derive(Clone, Copy, Debug, PartialEq, Eq, Structural)]
pub enum McpErrorCode {
    InvalidArgument,
    UnsupportedValue,
    RuntimeFailure,
    PlatformFailure,
    Internal,
}

/// Name of a code.
pub open spec fn code_name(code: McpErrorCode) -> Seq<char> {
    match code {
        McpErrorCode::InvalidArgument => "invalid_argument"@,
        McpErrorCode::UnsupportedValue => "unsupported_value"@,
        McpErrorCode::RuntimeFailure => "runtime_failure"@,
        McpErrorCode::PlatformFailure => "platform_failure"@,
        McpErrorCode::Internal => "internal"@,
    }
}

impl McpErrorCode {
    /// Name of the code.
    pub fn as_str(self) -> (r: &'static str)
        ensures
            r@ == code_name(self),
    {
        match self {
            McpErrorCode::InvalidArgument => "invalid_argument",
            McpErrorCode::UnsupportedValue => "unsupported_value",
            McpErrorCode::RuntimeFailure => "runtime_failure",
            McpErrorCode::PlatformFailure => "platform_failure",
            McpErrorCode::Internal => "internal",
        }
    }
}

/// Class of a failure that the caller is told of.
#[derive(Clone, Copy, Debug, PartialEq, Eq, Structural)]
pub enum McpBusinessErrorKind {
    Validation,
    Runtime,
    Platform,
}

/// Name of a class.
pub open spec fn kind_name(kind: McpBusinessErrorKind) -> Seq<char> {
    match kind {
        McpBusinessErrorKind::Validation => "validation"@,
        McpBusinessErrorKind::Runtime => "runtime"@,
        McpBusinessErrorKind::Platform => "platform"@,
    }
}

impl McpBusinessErrorKind {
    /// Name of the class.
    pub fn as_str(self) -> (r: &'static str)
        ensures
            r@ == kind_name(self),
    {
        match self {
            McpBusinessErrorKind::Validation => "validation",
            McpBusinessErrorKind::Runtime => "runtime",
            McpBusinessErrorKind::Platform => "platform",
        }
    }
}

/// Class that a failure of a command belongs to.
pub open spec fn kind_of(kind: UseCaseErrorKind) -> McpBusinessErrorKind {
    match kind {
        UseCaseErrorKind::Validation => McpBusinessErrorKind::Validation,
        UseCaseErrorKind::Runtime => McpBusinessErrorKind::Runtime,
        UseCaseErrorKind::Platform => McpBusinessErrorKind::Platform,
    }
}

impl From<UseCaseErrorKind> for McpBusinessErrorKind {
    fn from(value: UseCaseErrorKind) -> (r: Self) {
        match value {
            UseCaseErrorKind::Validation => McpBusinessErrorKind::Validation,
            UseCaseErrorKind::Runtime => McpBusinessErrorKind::Runtime,
            UseCaseErrorKind::Platform => McpBusinessErrorKind::Platform,
        }
    }
}

impl vstd::std_specs::convert::FromSpecImpl<UseCaseErrorKind> for McpBusinessErrorKind {
    open spec fn obeys_from_spec() -> bool {
        true
    }

    open spec fn from_spec(value: UseCaseErrorKind) -> Self {
        kind_of(value)
    }
}

/// Failure that the caller is told of.
#[derive(Debug, PartialEq, Eq)]
pub struct McpBusinessError {
    pub code: McpErrorCode,
    pub kind: McpBusinessErrorKind,
    pub message: String,
}

/// Mathematical value of [`McpBusinessError`].
pub struct McpBusinessErrorView {
    pub code: McpErrorCode,
    pub kind: McpBusinessErrorKind,
    pub message: Seq<char>,
}

impl View for McpBusinessError {
    type V = McpBusinessErrorView;

    open spec fn view(&self) -> McpBusinessErrorView {
        McpBusinessErrorView {
            code: self.code,
            kind: self.kind,
            message: self.message@,
        }
    }
}

impl Clone for McpBusinessError {
    fn clone(&self) -> (r: Self)
        ensures
            r@ == self@,
    {
        McpBusinessError {
            code: self.code,
            kind: self.kind,
            message: self.message.clone(),
        }
    }
}

/// Failure of a command as the caller is told of it.
pub open spec fn business_of(error: UseCaseErrorView) -> McpBusinessErrorView {
    McpBusinessErrorView {
        code: match error.kind {
            UseCaseErrorKind::Validation => McpErrorCode::InvalidArgument,
            UseCaseErrorKind::Runtime => McpErrorCode::RuntimeFailure,
            UseCaseErrorKind::Platform => McpErrorCode::PlatformFailure,
        },
        kind: kind_of(error.kind),
        message: error.message,
    }
}

impl McpBusinessError {
    /// Failure of a command as the caller is told of it.
    pub fn from_use_case(error: &UseCaseError) -> (r: Self)
        ensures
            r@ == business_of(error@),
    {
        let kind = error.kind();
        let code = match kind {
            UseCaseErrorKind::Validation => McpErrorCode::InvalidArgument,
            UseCaseErrorKind::Runtime => McpErrorCode::RuntimeFailure,
            UseCaseErrorKind::Platform => McpErrorCode::PlatformFailure,
        };
        McpBusinessError {
            code,
            kind: McpBusinessErrorKind::from(kind),
            message: error.message().to_owned(),
        }
    }
}

/// Failure with the response that tells of it.
#[derive(Debug, PartialEq, Eq)]
pub struct McpBusinessFailure<T> {
    pub error: McpBusinessError,
    pub response: T,
}

impl<T> McpBusinessFailure<T> {
    /// Failure with its response.
    pub fn new(error: McpBusinessError, response: T) -> (r: Self)
        ensures
            r.error == error,
            r.response == response,
    {
        McpBusinessFailure { error, response }
    }
}

/// Failure of the service itself.
#[derive(Debug, PartialEq, Eq)]
pub struct McpInternalError {
    pub code: McpErrorCode,
    pub message: String,
}

/// Mathematical value of [`McpInternalError`].
pub struct McpInternalErrorView {
    pub code: McpErrorCode,
    pub message: Seq<char>,
}

impl View for McpInternalError {
    type V = McpInternalErrorView;

    open spec fn view(&self) -> McpInternalErrorView {
        McpInternalErrorView {
            code: self.code,
            message: self.message@,
        }
    }
}

impl McpInternalError {
    /// Failure with the message.
    pub fn new(message: String) -> (r: Self)
        ensures
            r@ == (McpInternalErrorView { code: McpErrorCode::Internal, message: message@ }),
    {
        McpInternalError { code: McpErrorCode::Internal, message }
    }
}

/// Failure of a call.
#[derive(Debug, PartialEq, Eq)]
pub enum McpServiceError<T> {
    Business(McpBusinessFailure<T>),
    Internal(McpInternalError),
}

} // verus!
