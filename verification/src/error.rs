//! Structured errors for every core operation.
//!
//! The taxonomy distinguishes: arguments rejected before any native call
//! ([`CodexError::InvalidParameter`]), lifecycle transitions that are not
//! legal in the handle's current state ([`CodexError::NodeState`]), native
//! calls rejected synchronously so that no callback will ever fire
//! ([`CodexError::P2p`], [`CodexError::Download`], [`CodexError::Storage`],
//! and [`CodexError::NodeState`] for lifecycle calls), failures the
//! completion callback carried back ([`CodexError::NativeFailure`]),
//! decoding failures of native payloads ([`CodexError::Library`]), and the
//! unrecoverable poisoning of the serializer lock ([`CodexError::Fatal`]).

use vstd::prelude::*;

verus! {

/// Whether `e` reports an illegal lifecycle transition, or a lifecycle
/// call the engine rejected synchronously, with exactly this operation
/// name and message.
pub open spec fn state_error(e: CodexError, operation: Seq<char>, message: Seq<char>) -> bool {
    e matches CodexError::NodeState { operation: o, message: m } && o@ == operation && m@
        == message
}

/// Whether `e` reports an argument rejected before any native call, with
/// exactly this parameter name and message.
pub open spec fn invalid_parameter_error(
    e: CodexError,
    parameter: Seq<char>,
    message: Seq<char>,
) -> bool {
    e matches CodexError::InvalidParameter { parameter: p, message: m } && p@ == parameter && m@
        == message
}

/// Whether `e` carries a failure the completion callback reported, with
/// exactly this native message.
pub open spec fn native_failure(e: CodexError, message: Seq<char>) -> bool {
    e matches CodexError::NativeFailure { message: m } && m@ == message
}

/// Whether `e` reports a synchronously rejected storage call, with
/// exactly this operation name and message.
pub open spec fn storage_rejected(e: CodexError, operation: Seq<char>, message: Seq<char>) -> bool {
    e matches CodexError::Storage { operation: o, message: m } && o@ == operation && m@ == message
}

/// Whether `e` reports a synchronously rejected peer-connection call,
/// with exactly this message.
pub open spec fn p2p_rejected(e: CodexError, message: Seq<char>) -> bool {
    e matches CodexError::P2p { message: m } && m@ == message
}

/// Whether `e` reports a synchronously rejected download call, with
/// exactly this message.
pub open spec fn download_rejected(e: CodexError, message: Seq<char>) -> bool {
    e matches CodexError::Download { message: m } && m@ == message
}

/// Whether `e` reports a payload that could not be decoded, with exactly
/// this message.
pub open spec fn library_failure(e: CodexError, message: Seq<char>) -> bool {
    e matches CodexError::Library { message: m } && m@ == message
}

/// The error value every public core operation reports with.
///
/// All variants but [`CodexError::Fatal`] are recoverable and are returned
/// to the caller; none is retried by the core. `Fatal` marks a poisoned
/// serializer lock: the native engine's state can no longer be trusted, and the
/// embedding must treat the process as lost rather than continue.
#[derive(Debug, PartialEq, Eq)]
pub enum CodexError {
    /// A caller-supplied argument failed local validation; no native call
    /// was made.
    InvalidParameter { parameter: String, message: String },
    /// A lifecycle operation was requested in a state that does not allow
    /// it, or a lifecycle native call was rejected synchronously.
    NodeState { operation: String, message: String },
    /// A peer-connection native call was rejected synchronously.
    P2p { message: String },
    /// A download native call was rejected synchronously.
    Download { message: String },
    /// A content-storage native call was rejected synchronously.
    Storage { operation: String, message: String },
    /// A native payload could not be decoded into the expected value.
    Library { message: String },
    /// The completion callback fired with a failure status; the message is
    /// the native-supplied text.
    NativeFailure { message: String },
    /// The serializer lock was poisoned by a failure while it was held.
    Fatal { message: String },
}

impl CodexError {
    /// An argument was rejected before any native call.
    pub fn invalid_parameter(parameter: &str, message: &str) -> (e: CodexError)
        ensures
            e matches CodexError::InvalidParameter { parameter: p, message: m }
                && p@ == parameter@ && m@ == message@,
    {
        CodexError::InvalidParameter {
            parameter: parameter.to_owned(),
            message: message.to_owned(),
        }
    }

    /// A lifecycle operation was refused, either by the state machine or by
    /// the engine rejecting the call synchronously.
    pub fn node_error(operation: &str, message: &str) -> (e: CodexError)
        ensures
            e matches CodexError::NodeState { operation: o, message: m }
                && o@ == operation@ && m@ == message@,
    {
        CodexError::NodeState {
            operation: operation.to_owned(),
            message: message.to_owned(),
        }
    }

    /// A peer-connection call was rejected synchronously.
    pub fn p2p_error(message: &str) -> (e: CodexError)
        ensures
            e matches CodexError::P2p { message: m } && m@ == message@,
    {
        CodexError::P2p { message: message.to_owned() }
    }

    /// A download call was rejected synchronously.
    pub fn download_error(message: &str) -> (e: CodexError)
        ensures
            e matches CodexError::Download { message: m } && m@ == message@,
    {
        CodexError::Download { message: message.to_owned() }
    }

    /// A content-storage call was rejected synchronously.
    pub fn storage_error(operation: &str, message: &str) -> (e: CodexError)
        ensures
            e matches CodexError::Storage { operation: o, message: m }
                && o@ == operation@ && m@ == message@,
    {
        CodexError::Storage {
            operation: operation.to_owned(),
            message: message.to_owned(),
        }
    }

    /// A native payload could not be decoded.
    pub fn library_error(message: &str) -> (e: CodexError)
        ensures
            e matches CodexError::Library { message: m } && m@ == message@,
    {
        CodexError::Library { message: message.to_owned() }
    }

    /// The completion callback reported a failure, carrying the engine's
    /// own message.
    pub fn native_failure(message: String) -> (e: CodexError)
        ensures
            e matches CodexError::NativeFailure { message: m } && m@ == message@,
    {
        CodexError::NativeFailure { message }
    }

    /// The serializer lock was poisoned; the process must not keep
    /// driving the engine.
    pub fn fatal(message: &str) -> (e: CodexError)
        ensures
            e matches CodexError::Fatal { message: m } && m@ == message@,
    {
        CodexError::Fatal { message: message.to_owned() }
    }

    /// Whether this error reports an illegal lifecycle transition (or a
    /// synchronously rejected lifecycle call).
    pub fn is_state_error(&self) -> (r: bool)
        ensures
            r == (self is NodeState),
    {
        match self {
            CodexError::NodeState { .. } => true,
            _ => false,
        }
    }
}

} // verus!
