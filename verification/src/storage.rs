//! Content-storage operations: the request/result logic of fetching a
//! manifest, deleting content, and asking whether content exists.
//!
//! Each operation validates its content identifier locally, is issued as
//! one serialized native call, and maps the completion back to the
//! caller's value. The fetch payload is the manifest's text exactly as
//! the callback delivered it; decoding that text into a structured value
//! is the embedding's work.

use vstd::prelude::*;

use crate::engine::{CallOutcome, NativeAction};
use crate::error::{
    invalid_parameter_error, library_failure, native_failure, state_error, storage_rejected,
    CodexError,
};
use crate::lifecycle::CodexNode;

verus! {

/// Decides whether a manifest fetch may be issued: the content
/// identifier must not be empty, and nothing is issued against a
/// destroyed node.
pub fn fetch_request(node: &CodexNode, cid: &str) -> (r: Result<NativeAction, CodexError>)
    ensures
        cid@.len() == 0 ==> (r matches Err(e) && invalid_parameter_error(
            e,
            "cid"@,
            "CID cannot be empty"@,
        )),
        cid@.len() != 0 && node@.ctx == 0 ==> (r matches Err(e) && state_error(
            e,
            "fetch"@,
            "Node is destroyed"@,
        )),
        cid@.len() != 0 && node@.ctx != 0 ==> r == Ok::<_, CodexError>(
            NativeAction::Fetch { ctx: node@.ctx },
        ),
{
    if cid.is_empty() {
        return Err(CodexError::invalid_parameter("cid", "CID cannot be empty"));
    }
    let ctx = node.ctx();
    if ctx == 0 {
        return Err(CodexError::node_error("fetch", "Node is destroyed"));
    }
    Ok(NativeAction::Fetch { ctx })
}

/// Maps how an issued fetch ended: the manifest text the callback
/// delivered, or the structured error.
pub fn fetch_result(completion: CallOutcome) -> (r: Result<String, CodexError>)
    ensures
        r is Ok <==> completion is Completed,
        completion matches CallOutcome::Completed { payload } ==> (r matches Ok(p) && p@
            == payload@),
        completion is Rejected ==> (r matches Err(e) && storage_rejected(
            e,
            "fetch"@,
            "Failed to fetch manifest"@,
        )),
        completion matches CallOutcome::Failed { message } ==> (r matches Err(e) && native_failure(
            e,
            message@,
        )),
{
    match completion {
        CallOutcome::Completed { payload } => Ok(payload),
        CallOutcome::Rejected => Err(CodexError::storage_error("fetch", "Failed to fetch manifest")),
        CallOutcome::Failed { message } => Err(CodexError::native_failure(message)),
    }
}

/// Decides whether a delete may be issued: the content identifier must
/// not be empty, and nothing is issued against a destroyed node.
pub fn delete_request(node: &CodexNode, cid: &str) -> (r: Result<NativeAction, CodexError>)
    ensures
        cid@.len() == 0 ==> (r matches Err(e) && invalid_parameter_error(
            e,
            "cid"@,
            "CID cannot be empty"@,
        )),
        cid@.len() != 0 && node@.ctx == 0 ==> (r matches Err(e) && state_error(
            e,
            "delete"@,
            "Node is destroyed"@,
        )),
        cid@.len() != 0 && node@.ctx != 0 ==> r == Ok::<_, CodexError>(
            NativeAction::Delete { ctx: node@.ctx },
        ),
{
    if cid.is_empty() {
        return Err(CodexError::invalid_parameter("cid", "CID cannot be empty"));
    }
    let ctx = node.ctx();
    if ctx == 0 {
        return Err(CodexError::node_error("delete", "Node is destroyed"));
    }
    Ok(NativeAction::Delete { ctx })
}

/// Maps how an issued delete ended.
pub fn delete_result(completion: CallOutcome) -> (r: Result<(), CodexError>)
    ensures
        r is Ok <==> completion is Completed,
        completion is Rejected ==> (r matches Err(e) && storage_rejected(
            e,
            "delete"@,
            "Failed to delete content"@,
        )),
        completion matches CallOutcome::Failed { message } ==> (r matches Err(e) && native_failure(
            e,
            message@,
        )),
{
    match completion {
        CallOutcome::Completed { payload: _ } => Ok(()),
        CallOutcome::Rejected => Err(
            CodexError::storage_error("delete", "Failed to delete content"),
        ),
        CallOutcome::Failed { message } => Err(CodexError::native_failure(message)),
    }
}

/// Decides whether an existence check may be issued: the content
/// identifier must not be empty, and nothing is issued against a
/// destroyed node.
pub fn exists_request(node: &CodexNode, cid: &str) -> (r: Result<NativeAction, CodexError>)
    ensures
        cid@.len() == 0 ==> (r matches Err(e) && invalid_parameter_error(
            e,
            "cid"@,
            "CID cannot be empty"@,
        )),
        cid@.len() != 0 && node@.ctx == 0 ==> (r matches Err(e) && state_error(
            e,
            "exists"@,
            "Node is destroyed"@,
        )),
        cid@.len() != 0 && node@.ctx != 0 ==> r == Ok::<_, CodexError>(
            NativeAction::Exists { ctx: node@.ctx },
        ),
{
    if cid.is_empty() {
        return Err(CodexError::invalid_parameter("cid", "CID cannot be empty"));
    }
    let ctx = node.ctx();
    if ctx == 0 {
        return Err(CodexError::node_error("exists", "Node is destroyed"));
    }
    Ok(NativeAction::Exists { ctx })
}

/// Maps how an issued existence check ended: the engine answers with the
/// literal text `true` or `false`, and anything else is a decoding
/// error.
pub fn exists_result(completion: CallOutcome) -> (r: Result<bool, CodexError>)
    ensures
        completion matches CallOutcome::Completed { payload } ==> {
            &&& payload@ == "true"@ ==> r == Ok::<_, CodexError>(true)
            &&& payload@ == "false"@ ==> r == Ok::<_, CodexError>(false)
            &&& payload@ != "true"@ && payload@ != "false"@ ==> (r matches Err(e)
                && library_failure(e, "Failed to parse exists result: provided string was not `true` or `false`"@))
        },
        completion is Rejected ==> (r matches Err(e) && storage_rejected(
            e,
            "exists"@,
            "Failed to check if content exists"@,
        )),
        completion matches CallOutcome::Failed { message } ==> (r matches Err(e) && native_failure(
            e,
            message@,
        )),
{
    match completion {
        CallOutcome::Completed { payload } => {
            proof {
                reveal_strlit("true");
                reveal_strlit("false");
                assert("true"@.len() == 4);
                assert("false"@.len() == 5);
            }
            let literal_true: String = "true".to_owned();
            let literal_false: String = "false".to_owned();
            if payload == literal_true {
                Ok(true)
            } else if payload == literal_false {
                Ok(false)
            } else {
                Err(CodexError::library_error(
                    "Failed to parse exists result: provided string was not `true` or `false`",
                ))
            }
        },
        CallOutcome::Rejected => Err(
            CodexError::storage_error("exists", "Failed to check if content exists"),
        ),
        CallOutcome::Failed { message } => Err(CodexError::native_failure(message)),
    }
}

} // verus!
