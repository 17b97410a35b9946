//! Safe, state-checked core for a callback-driven native content-storage
//! engine.
//!
//! The native engine is an opaque, non-reentrant handle: every operation is
//! either synchronous-but-blocking or asynchronous-via-callback, and no two
//! native calls may run concurrently. This crate holds the logic that makes
//! such an engine safe to drive from many concurrent logical tasks:
//!
//! - [`bridge`]: the Completion Bridge, a single-use cell that a native
//!   call's completion callback resolves exactly once, with an optional
//!   progress channel for calls that stream intermediate data;
//! - [`serializer`]: the protocol of the Global Call Serializer, the
//!   process-wide lock that is held for the native call invocation only and
//!   never across the asynchronous wait;
//! - [`lifecycle`]: the node handle's lifecycle state machine (create,
//!   start, stop, destroy, introspection) with shared-handle counting and
//!   single-owner teardown;
//! - [`engine`]: the native function surface as the core sees it — the
//!   actions it decides to issue and the outcomes reported back;
//! - [`connection`], [`storage`], [`download`]: the validation and
//!   result-mapping logic of the feature callers built on the bridge;
//! - [`error`]: the structured error taxonomy every operation reports with.
//!
//! The unverifiable edges — the raw C calls, the marshaling of buffers
//! across the boundary, the locking and waking primitives — live in the
//! embedding application. It drives this crate's state machines: each
//! `*_request` function decides whether a native call may be issued and
//! which one, and each `*_commit` / `*_result` function folds the outcome
//! the engine reported back into the verified state.

pub mod bridge;
pub mod connection;
pub mod download;
pub mod engine;
pub mod error;
pub mod lifecycle;
pub mod serializer;
pub mod storage;
