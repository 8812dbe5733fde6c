//! Error codes returned by message dispatch.
use vstd::prelude::*;

verus! {

/// Errors raised by the hypervisor's dispatch layer.
#[derive(Clone, Copy, Debug, PartialEq, Eq, Structural)]
pub enum SystemErrorCode {
    /// The target account or its handler could not be resolved.
    HandlerNotFound,
    /// A frame for the handler could not be pushed.
    InvalidHandler,
    /// The sender of a message is not the account currently executing.
    UnauthorizedCallerAccess,
    /// The frame stack was found in a state that dispatch never produces.
    FatalExecutionError,
}

/// Outcomes that a handler reports about a message.
#[derive(Clone, Copy, Debug, PartialEq, Eq, Structural)]
pub enum HandlerErrorCode {
    /// The handler does not implement the message.
    MessageNotHandled,
    /// The message could not be decoded by the handler.
    EncodingError,
}

/// The error of a message invocation.
#[derive(Clone, Copy, Debug, PartialEq, Eq, Structural)]
pub enum ErrorCode {
    /// An error of the dispatch layer.
    RuntimeSystemError(SystemErrorCode),
    /// A handler-level outcome.
    HandlerSystemError(HandlerErrorCode),
    /// An application-defined error code.
    HandlerCode(u16),
}

} // verus!
