//! The native function surface, as the core sees it.
//!
//! Every native operation has the same shape: the call either is rejected
//! synchronously — a non-zero status, no callback will ever fire — or is
//! accepted, and its completion arrives later through the Completion
//! Bridge as a terminal success or failure. The core never touches the
//! engine itself; it decides which call may be issued ([`NativeAction`])
//! and folds what came back ([`CallOutcome`]) into its verified state. The
//! embedding performs the action, drives the bridge, decodes the payload
//! buffers, and reports the outcome.

use vstd::prelude::*;

verus! {

/// The introspection values the engine can be queried for.
#[derive(Clone, Copy, Debug, PartialEq, Eq, Structural)]
pub enum NodeInfo {
    /// The engine's version string.
    Version,
    /// The engine's source revision string.
    Revision,
    /// The path of the node's data directory.
    Repo,
    /// The node's signed peer record.
    Spr,
    /// The node's network identity string.
    PeerId,
}

/// A native call the core has decided may be issued now, carrying the
/// context address the call must be made against. The embedding performs
/// it under the serializer lock, with a fresh Completion Bridge.
#[derive(Clone, Copy, Debug, PartialEq, Eq, Structural)]
pub enum NativeAction {
    /// Start the node behind this context.
    Start { ctx: usize },
    /// Stop the node behind this context.
    Stop { ctx: usize },
    /// Close the node behind this context; its completion is awaited.
    Close { ctx: usize },
    /// Release the context itself. Fire-and-forget: the engine reports no
    /// meaningful status here and the return value is deliberately
    /// ignored.
    Destroy { ctx: usize },
    /// Query one introspection value of the node behind this context.
    Query { ctx: usize, info: NodeInfo },
    /// Connect the node behind this context to a peer; the peer identity
    /// and addresses are the validated arguments the caller already
    /// holds.
    Connect { ctx: usize },
    /// Fetch the stored manifest of a content identifier.
    Fetch { ctx: usize },
    /// Delete a content identifier from storage.
    Delete { ctx: usize },
    /// Ask whether a content identifier exists in storage.
    Exists { ctx: usize },
    /// Initialize a download with the given chunk size.
    DownloadInit { ctx: usize, chunk_size: usize },
    /// Download one chunk; its data arrives on the progress channel.
    DownloadChunk { ctx: usize },
    /// Cancel a running download.
    DownloadCancel { ctx: usize },
}

/// How one issued native call ended, as the embedding reports it back:
/// rejected synchronously, or resolved by the callback with a terminal
/// status. Payloads and messages arrive here already decoded from the
/// native buffers — decoding and releasing those buffers is the
/// embedding's marshaling work.
#[derive(Debug)]
pub enum CallOutcome {
    /// The native function returned a non-zero status: the call was never
    /// accepted and no callback will fire.
    Rejected,
    /// The callback fired with a success status; the payload is the
    /// call's result (empty for calls that return nothing).
    Completed { payload: String },
    /// The callback fired with a failure status; the message is the
    /// engine's own text.
    Failed { message: String },
}

} // verus!
