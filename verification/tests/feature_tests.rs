//! The feature callers: connect, storage operations, downloads, and the
//! serializer protocol walk.

use codex_bindings::bridge::{CallStatus, CompletionBridge};
use codex_bindings::connection::{connect_request, connect_result};
use codex_bindings::download::{
    download_cancel_request, download_cancel_result, download_chunk_extract,
    download_chunk_issued, download_chunk_request, download_init_request, download_init_result,
    DownloadOptions,
};
use codex_bindings::engine::{CallOutcome, NativeAction};
use codex_bindings::error::CodexError;
use codex_bindings::lifecycle::CodexNode;
use codex_bindings::serializer::SerializedCall;
use codex_bindings::storage::{
    delete_request, delete_result, exists_request, exists_result, fetch_request, fetch_result,
};

const CTX: usize = 0x2000;

fn completed(payload: &str) -> CallOutcome {
    CallOutcome::Completed {
        payload: payload.to_string(),
    }
}

fn fresh_node() -> CodexNode {
    CodexNode::new(CTX, completed("")).expect("creation succeeds")
}

#[test]
fn connect_validates_before_any_call() {
    let node = fresh_node();
    let addresses = vec!["/ip4/127.0.0.1/tcp/8080".to_string()];

    match connect_request(&node, "", &addresses) {
        Err(CodexError::InvalidParameter { parameter, message }) => {
            assert_eq!(parameter, "peer_id");
            assert_eq!(message, "Peer ID cannot be empty");
        }
        other => panic!("expected an invalid-parameter error, got {:?}", other),
    }
    match connect_request(&node, "12D3KooWExamplePeer123456789", &[]) {
        Err(CodexError::InvalidParameter { parameter, message }) => {
            assert_eq!(parameter, "peer_addresses");
            assert_eq!(message, "At least one peer address must be provided");
        }
        other => panic!("expected an invalid-parameter error, got {:?}", other),
    }
    assert_eq!(
        connect_request(&node, "12D3KooWExamplePeer123456789", &addresses),
        Ok(NativeAction::Connect { ctx: CTX })
    );
}

#[test]
fn connect_outcomes_map_to_the_callers_result() {
    assert!(connect_result(completed("")).is_ok());
    match connect_result(CallOutcome::Rejected) {
        Err(CodexError::P2p { message }) => assert_eq!(message, "Failed to connect to peer"),
        other => panic!("expected a connection error, got {:?}", other),
    }
    match connect_result(CallOutcome::Failed {
        message: "peer unreachable".to_string(),
    }) {
        Err(CodexError::NativeFailure { message }) => assert_eq!(message, "peer unreachable"),
        other => panic!("expected a native failure, got {:?}", other),
    }
}

#[test]
fn storage_requests_validate_the_cid() {
    let node = fresh_node();
    for request in [fetch_request, delete_request, exists_request] {
        match request(&node, "") {
            Err(CodexError::InvalidParameter { parameter, message }) => {
                assert_eq!(parameter, "cid");
                assert_eq!(message, "CID cannot be empty");
            }
            other => panic!("expected an invalid-parameter error, got {:?}", other),
        }
    }
    assert_eq!(
        fetch_request(&node, "bafytestcid"),
        Ok(NativeAction::Fetch { ctx: CTX })
    );
    assert_eq!(
        delete_request(&node, "bafytestcid"),
        Ok(NativeAction::Delete { ctx: CTX })
    );
    assert_eq!(
        exists_request(&node, "bafytestcid"),
        Ok(NativeAction::Exists { ctx: CTX })
    );
}

#[test]
fn fetch_hands_the_manifest_text_through_unchanged() {
    let manifest = "{\"cid\":\"bafytestcid\",\"datasetSize\":42}";
    assert_eq!(fetch_result(completed(manifest)), Ok(manifest.to_string()));
    match fetch_result(CallOutcome::Rejected) {
        Err(CodexError::Storage { operation, message }) => {
            assert_eq!(operation, "fetch");
            assert_eq!(message, "Failed to fetch manifest");
        }
        other => panic!("expected a storage error, got {:?}", other),
    }
}

#[test]
fn delete_outcomes_map_to_the_callers_result() {
    assert!(delete_result(completed("")).is_ok());
    match delete_result(CallOutcome::Rejected) {
        Err(CodexError::Storage { operation, message }) => {
            assert_eq!(operation, "delete");
            assert_eq!(message, "Failed to delete content");
        }
        other => panic!("expected a storage error, got {:?}", other),
    }
}

#[test]
fn exists_parses_exactly_the_two_literal_answers() {
    assert_eq!(exists_result(completed("true")).unwrap(), true);
    assert_eq!(exists_result(completed("false")).unwrap(), false);
    match exists_result(completed("TRUE")) {
        Err(CodexError::Library { message }) => {
            assert_eq!(
                message,
                "Failed to parse exists result: provided string was not `true` or `false`"
            );
        }
        other => panic!("expected a decoding error, got {:?}", other),
    }
    match exists_result(CallOutcome::Rejected) {
        Err(CodexError::Storage { operation, message }) => {
            assert_eq!(operation, "exists");
            assert_eq!(message, "Failed to check if content exists");
        }
        other => panic!("expected a storage error, got {:?}", other),
    }
}

#[test]
fn download_options_reject_a_zero_chunk_size() {
    let defaults = DownloadOptions::new();
    assert!(defaults.validate().is_ok());
    assert_eq!(defaults.effective_chunk_size(), 1024 * 1024);

    let explicit = DownloadOptions {
        chunk_size: Some(4096),
    };
    assert!(explicit.validate().is_ok());
    assert_eq!(explicit.effective_chunk_size(), 4096);

    let zero = DownloadOptions {
        chunk_size: Some(0),
    };
    match zero.validate() {
        Err(CodexError::InvalidParameter { parameter, message }) => {
            assert_eq!(parameter, "chunk_size");
            assert_eq!(message, "Chunk size must be greater than zero");
        }
        other => panic!("expected an invalid-parameter error, got {:?}", other),
    }
}

#[test]
fn download_requests_validate_cid_and_options() {
    let node = fresh_node();
    let options = DownloadOptions::new();
    assert!(download_init_request(&node, "", &options).is_err());
    assert!(download_init_request(
        &node,
        "bafytestcid",
        &DownloadOptions {
            chunk_size: Some(0)
        }
    )
    .is_err());
    assert_eq!(
        download_init_request(&node, "bafytestcid", &options),
        Ok(NativeAction::DownloadInit {
            ctx: CTX,
            chunk_size: 1024 * 1024
        })
    );
    assert_eq!(
        download_chunk_request(&node, "bafytestcid"),
        Ok(NativeAction::DownloadChunk { ctx: CTX })
    );
    assert_eq!(
        download_cancel_request(&node, "bafytestcid"),
        Ok(NativeAction::DownloadCancel { ctx: CTX })
    );
}

#[test]
fn download_outcomes_map_to_the_callers_result() {
    assert!(download_init_result(completed("")).is_ok());
    match download_init_result(CallOutcome::Rejected) {
        Err(CodexError::Download { message }) => {
            assert_eq!(message, "Failed to initialize download");
        }
        other => panic!("expected a download error, got {:?}", other),
    }
    match download_cancel_result(CallOutcome::Rejected) {
        Err(CodexError::Download { message }) => {
            assert_eq!(message, "Failed to cancel download");
        }
        other => panic!("expected a download error, got {:?}", other),
    }
}

#[test]
fn a_rejected_chunk_read_is_the_download_error() {
    assert!(download_chunk_issued(true).is_ok());
    match download_chunk_issued(false) {
        Err(CodexError::Download { message }) => {
            assert_eq!(message, "Failed to download chunk");
        }
        other => panic!("expected a download error, got {:?}", other),
    }
}

#[test]
fn chunk_extraction_keeps_the_last_delivery() {
    let mut bridge = CompletionBridge::new();
    bridge.attach_progress_handler();
    bridge.resolve(CallStatus::Progress, b"stale".to_vec());
    bridge.resolve(CallStatus::Progress, b"fresh".to_vec());
    bridge.resolve(CallStatus::Success, Vec::new());
    assert_eq!(download_chunk_extract(bridge), Ok(b"fresh".to_vec()));
}

#[test]
fn chunk_extraction_of_an_empty_stream_is_empty_data() {
    let mut bridge = CompletionBridge::new();
    bridge.attach_progress_handler();
    bridge.resolve(CallStatus::Success, Vec::new());
    assert_eq!(download_chunk_extract(bridge), Ok(Vec::new()));
}

#[test]
fn chunk_extraction_surfaces_the_failure_message() {
    let mut bridge = CompletionBridge::new();
    bridge.attach_progress_handler();
    bridge.resolve(CallStatus::Progress, b"partial".to_vec());
    bridge.resolve(CallStatus::Failure, b"stream broke".to_vec());
    assert_eq!(download_chunk_extract(bridge), Err(b"stream broke".to_vec()));
}

#[test]
fn requests_against_a_destroyed_node_are_refused() {
    let mut node = fresh_node();
    node.destroy_request().expect("allowed");
    node.destroy_commit(completed("")).expect("confirmed");
    let addresses = vec!["/ip4/127.0.0.1/tcp/8080".to_string()];
    assert!(connect_request(&node, "12D3KooWExamplePeer123456789", &addresses).is_err());
    assert!(fetch_request(&node, "bafytestcid").is_err());
    assert!(delete_request(&node, "bafytestcid").is_err());
    assert!(exists_request(&node, "bafytestcid").is_err());
    assert!(download_chunk_request(&node, "bafytestcid").is_err());
}

#[test]
fn a_call_walks_the_serializer_in_order() {
    // Acquire, issue, release, and only then wait: the witness admits
    // exactly the protocol's order.
    let mut call = SerializedCall::begin();
    call.lock_acquired();
    call.call_invoked();
    call.lock_released();
    call.wait_entered();
    call.wait_finished();
}

#[test]
fn fatal_errors_exist_for_a_poisoned_lock() {
    let fatal = CodexError::fatal("serializer lock poisoned; engine state is no longer trustworthy");
    assert!(matches!(fatal, CodexError::Fatal { .. }));
    assert!(!fatal.is_state_error());
}
