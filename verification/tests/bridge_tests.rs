//! The Completion Bridge: single resolution, progress streaming, and the
//! waiter's view of the result.

use codex_bindings::bridge::{CallStatus, CompletionBridge, ResolveEffect};

#[test]
fn terminal_success_resolves_once() {
    let mut b = CompletionBridge::new();
    assert!(!b.is_resolved());
    let effect = b.resolve(CallStatus::Success, b"payload".to_vec());
    assert_eq!(effect, ResolveEffect::Resolved);
    assert!(b.is_resolved());
    assert_eq!(b.take_result(), Ok(b"payload".to_vec()));
}

#[test]
fn terminal_failure_carries_the_message() {
    let mut b = CompletionBridge::new();
    let effect = b.resolve(CallStatus::Failure, b"engine says no".to_vec());
    assert_eq!(effect, ResolveEffect::Resolved);
    assert_eq!(b.take_result(), Err(b"engine says no".to_vec()));
}

#[test]
fn second_resolution_is_a_noop() {
    // A buggy or duplicate callback must not overwrite a delivered result.
    let mut b = CompletionBridge::new();
    assert_eq!(
        b.resolve(CallStatus::Success, b"first".to_vec()),
        ResolveEffect::Resolved
    );
    assert_eq!(
        b.resolve(CallStatus::Success, b"second".to_vec()),
        ResolveEffect::Ignored
    );
    assert_eq!(
        b.resolve(CallStatus::Failure, b"late failure".to_vec()),
        ResolveEffect::Ignored
    );
    assert_eq!(b.take_result(), Ok(b"first".to_vec()));
}

#[test]
fn second_resolution_after_failure_is_a_noop() {
    let mut b = CompletionBridge::new();
    assert_eq!(
        b.resolve(CallStatus::Failure, b"broke".to_vec()),
        ResolveEffect::Resolved
    );
    assert_eq!(
        b.resolve(CallStatus::Success, b"too late".to_vec()),
        ResolveEffect::Ignored
    );
    assert_eq!(b.take_result(), Err(b"broke".to_vec()));
}

#[test]
fn progress_stream_delivers_each_chunk_then_the_terminal_payload() {
    // Three progress notifications followed by one terminal resolution:
    // the handler side sees exactly the three chunks, in order, and the
    // waiter receives exactly the terminal payload.
    let mut b = CompletionBridge::new();
    b.attach_progress_handler();
    for chunk in [&b"one"[..], &b"two"[..], &b"three"[..]] {
        assert_eq!(
            b.resolve(CallStatus::Progress, chunk.to_vec()),
            ResolveEffect::ProgressDelivered
        );
        assert!(!b.is_resolved());
    }
    assert_eq!(
        b.resolve(CallStatus::Success, b"done".to_vec()),
        ResolveEffect::Resolved
    );
    let delivered: Vec<Vec<u8>> = b.progress_payloads().clone();
    assert_eq!(
        delivered,
        vec![b"one".to_vec(), b"two".to_vec(), b"three".to_vec()]
    );
    assert_eq!(b.take_result(), Ok(b"done".to_vec()));
}

#[test]
fn progress_without_a_handler_is_dropped() {
    let mut b = CompletionBridge::new();
    assert_eq!(
        b.resolve(CallStatus::Progress, b"chunk".to_vec()),
        ResolveEffect::Ignored
    );
    assert!(!b.is_resolved());
    assert!(b.progress_payloads().is_empty());
    assert_eq!(
        b.resolve(CallStatus::Success, b"done".to_vec()),
        ResolveEffect::Resolved
    );
    assert_eq!(b.take_result(), Ok(b"done".to_vec()));
}

#[test]
fn progress_after_resolution_is_ignored() {
    // The engine may keep streaming after a terminal status arrived; the
    // cell must tolerate it without corrupting the result.
    let mut b = CompletionBridge::new();
    b.attach_progress_handler();
    assert_eq!(
        b.resolve(CallStatus::Success, b"done".to_vec()),
        ResolveEffect::Resolved
    );
    assert_eq!(
        b.resolve(CallStatus::Progress, b"stray".to_vec()),
        ResolveEffect::Ignored
    );
    assert!(b.progress_payloads().is_empty());
    assert_eq!(b.take_result(), Ok(b"done".to_vec()));
}
