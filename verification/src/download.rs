//! Download operations: the request/result logic of initializing,
//! reading and cancelling a download.
//!
//! A chunk read is the one operation whose data does not come back as
//! the terminal payload: the engine streams it through the Completion
//! Bridge's progress channel, and the terminal success only confirms the
//! stream's end. [`download_chunk_extract`] folds such a resolved bridge
//! into the chunk the caller receives — the payload delivered last, as
//! each delivery supersedes the one before it.

use vstd::prelude::*;

use crate::bridge::CompletionBridge;
use crate::engine::{CallOutcome, NativeAction};
use crate::error::{
    download_rejected, invalid_parameter_error, native_failure, state_error, CodexError,
};
use crate::lifecycle::CodexNode;

verus! {

/// Options of one download, validated before the native call.
#[derive(Clone, Copy, Debug)]
pub struct DownloadOptions {
    /// The chunk size to read with; the engine's default when absent.
    pub chunk_size: Option<usize>,
}

/// The chunk size used when the options name none.
pub open spec fn spec_effective_chunk_size(o: DownloadOptions) -> usize {
    match o.chunk_size {
        Some(c) => c,
        None => (1024 * 1024) as usize,
    }
}

impl DownloadOptions {
    /// Options with every field left to its default.
    pub fn new() -> (o: DownloadOptions)
        ensures
            o.chunk_size is None,
    {
        DownloadOptions { chunk_size: None }
    }

    /// Rejects options no download can run with: a chunk size of zero.
    pub fn validate(&self) -> (r: Result<(), CodexError>)
        ensures
            r is Ok <==> self.chunk_size != Some(0usize),
            self.chunk_size == Some(0usize) ==> (r matches Err(e) && invalid_parameter_error(
                e,
                "chunk_size"@,
                "Chunk size must be greater than zero"@,
            )),
    {
        match self.chunk_size {
            Some(c) => {
                if c == 0 {
                    Err(
                        CodexError::invalid_parameter(
                            "chunk_size",
                            "Chunk size must be greater than zero",
                        ),
                    )
                } else {
                    Ok(())
                }
            },
            None => Ok(()),
        }
    }

    /// The chunk size the native call is issued with.
    pub fn effective_chunk_size(&self) -> (r: usize)
        ensures
            r == spec_effective_chunk_size(*self),
    {
        match self.chunk_size {
            Some(c) => c,
            None => 1024 * 1024,
        }
    }
}

/// Decides whether a download may be initialized: the content
/// identifier must not be empty, the options must validate, and nothing
/// is issued against a destroyed node.
pub fn download_init_request(node: &CodexNode, cid: &str, options: &DownloadOptions) -> (r: Result<
    NativeAction,
    CodexError,
>)
    ensures
        cid@.len() == 0 ==> (r matches Err(e) && invalid_parameter_error(
            e,
            "cid"@,
            "CID cannot be empty"@,
        )),
        cid@.len() != 0 && options.chunk_size == Some(0usize) ==> (r matches Err(e)
            && invalid_parameter_error(
            e,
            "chunk_size"@,
            "Chunk size must be greater than zero"@,
        )),
        cid@.len() != 0 && options.chunk_size != Some(0usize) && node@.ctx == 0 ==> (r matches Err(
            e,
        ) && state_error(e, "download"@, "Node is destroyed"@)),
        cid@.len() != 0 && options.chunk_size != Some(0usize) && node@.ctx != 0 ==> r == Ok::<
            _,
            CodexError,
        >(NativeAction::DownloadInit {
            ctx: node@.ctx,
            chunk_size: spec_effective_chunk_size(*options),
        }),
{
    if cid.is_empty() {
        return Err(CodexError::invalid_parameter("cid", "CID cannot be empty"));
    }
    match options.validate() {
        Ok(_) => {},
        Err(e) => {
            return Err(e);
        },
    }
    let ctx = node.ctx();
    if ctx == 0 {
        return Err(CodexError::node_error("download", "Node is destroyed"));
    }
    Ok(NativeAction::DownloadInit { ctx, chunk_size: options.effective_chunk_size() })
}

/// Maps how an issued download initialization ended.
pub fn download_init_result(completion: CallOutcome) -> (r: Result<(), CodexError>)
    ensures
        r is Ok <==> completion is Completed,
        completion is Rejected ==> (r matches Err(e) && download_rejected(
            e,
            "Failed to initialize download"@,
        )),
        completion matches CallOutcome::Failed { message } ==> (r matches Err(e) && native_failure(
            e,
            message@,
        )),
{
    match completion {
        CallOutcome::Completed { payload: _ } => Ok(()),
        CallOutcome::Rejected => Err(CodexError::download_error("Failed to initialize download")),
        CallOutcome::Failed { message } => Err(CodexError::native_failure(message)),
    }
}

/// Decides whether a chunk read may be issued: the content identifier
/// must not be empty, and nothing is issued against a destroyed node.
/// The bridge of this call needs its progress channel attached before
/// the call goes out.
pub fn download_chunk_request(node: &CodexNode, cid: &str) -> (r: Result<
    NativeAction,
    CodexError,
>)
    ensures
        cid@.len() == 0 ==> (r matches Err(e) && invalid_parameter_error(
            e,
            "cid"@,
            "CID cannot be empty"@,
        )),
        cid@.len() != 0 && node@.ctx == 0 ==> (r matches Err(e) && state_error(
            e,
            "download"@,
            "Node is destroyed"@,
        )),
        cid@.len() != 0 && node@.ctx != 0 ==> r == Ok::<_, CodexError>(
            NativeAction::DownloadChunk { ctx: node@.ctx },
        ),
{
    if cid.is_empty() {
        return Err(CodexError::invalid_parameter("cid", "CID cannot be empty"));
    }
    let ctx = node.ctx();
    if ctx == 0 {
        return Err(CodexError::node_error("download", "Node is destroyed"));
    }
    Ok(NativeAction::DownloadChunk { ctx })
}

/// Maps the synchronous verdict of an issued chunk read: a rejected
/// call — no callback will ever fire — is the download error; an
/// accepted call's data is consumed from the resolved bridge by
/// [`download_chunk_extract`].
pub fn download_chunk_issued(accepted: bool) -> (r: Result<(), CodexError>)
    ensures
        r is Ok <==> accepted,
        !accepted ==> (r matches Err(e) && download_rejected(
            e,
            "Failed to download chunk"@,
        )),
{
    if accepted {
        Ok(())
    } else {
        Err(CodexError::download_error("Failed to download chunk"))
    }
}

/// Folds the resolved bridge of a chunk read into the caller's data: the
/// progress payload delivered last — each delivery supersedes the one
/// before — or empty data when the stream delivered nothing. On failure
/// the engine's raw message bytes are handed back for the embedding to
/// decode.
pub fn download_chunk_extract(bridge: CompletionBridge) -> (r: Result<Vec<u8>, Vec<u8>>)
    requires
        bridge@.resolved,
    ensures
        bridge@.succeeded && bridge@.progress.len() > 0 ==> (r matches Ok(d) && d@
            == bridge@.progress.last()),
        bridge@.succeeded && bridge@.progress.len() == 0 ==> (r matches Ok(d) && d@ == Seq::<
            u8,
        >::empty()),
        !bridge@.succeeded ==> (r matches Err(m) && m@ == bridge@.payload),
{
    let ghost view = bridge@;
    let (outcome, mut chunks) = bridge.into_parts();
    match outcome {
        Ok(_confirmation) => {
            match chunks.pop() {
                Some(last) => {
                    proof {
                        assert(last@ == view.progress.last());
                    }
                    Ok(last)
                },
                None => Ok(Vec::new()),
            }
        },
        Err(message) => Err(message),
    }
}

/// Decides whether a download cancel may be issued: the content
/// identifier must not be empty, and nothing is issued against a
/// destroyed node. Cancellation is cooperative: it is its own
/// serialized, awaited call, and the cancelled call's own bridge may
/// still be resolved afterwards — which the bridge tolerates.
pub fn download_cancel_request(node: &CodexNode, cid: &str) -> (r: Result<
    NativeAction,
    CodexError,
>)
    ensures
        cid@.len() == 0 ==> (r matches Err(e) && invalid_parameter_error(
            e,
            "cid"@,
            "CID cannot be empty"@,
        )),
        cid@.len() != 0 && node@.ctx == 0 ==> (r matches Err(e) && state_error(
            e,
            "download"@,
            "Node is destroyed"@,
        )),
        cid@.len() != 0 && node@.ctx != 0 ==> r == Ok::<_, CodexError>(
            NativeAction::DownloadCancel { ctx: node@.ctx },
        ),
{
    if cid.is_empty() {
        return Err(CodexError::invalid_parameter("cid", "CID cannot be empty"));
    }
    let ctx = node.ctx();
    if ctx == 0 {
        return Err(CodexError::node_error("download", "Node is destroyed"));
    }
    Ok(NativeAction::DownloadCancel { ctx })
}

/// Maps how an issued download cancel ended.
pub fn download_cancel_result(completion: CallOutcome) -> (r: Result<(), CodexError>)
    ensures
        r is Ok <==> completion is Completed,
        completion is Rejected ==> (r matches Err(e) && download_rejected(
            e,
            "Failed to cancel download"@,
        )),
        completion matches CallOutcome::Failed { message } ==> (r matches Err(e) && native_failure(
            e,
            message@,
        )),
{
    match completion {
        CallOutcome::Completed { payload: _ } => Ok(()),
        CallOutcome::Rejected => Err(CodexError::download_error("Failed to cancel download")),
        CallOutcome::Failed { message } => Err(CodexError::native_failure(message)),
    }
}

} // verus!
