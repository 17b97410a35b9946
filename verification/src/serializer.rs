//! The Global Call Serializer's protocol.
//!
//! The engine is non-reentrant: every native call — handle creation
//! included — must run under one process-wide exclusion lock. The lock
//! covers the call invocation only; the asynchronous wait for the
//! completion callback happens outside it, so a task that is merely
//! awaiting its own completion never blocks another task from issuing a
//! call. Holding the lock across the wait would serialize all operations
//! end to end and deadlock as soon as two operations must both complete
//! for either to proceed.
//!
//! The lock itself is the embedding's exclusion primitive; what is
//! verified here is the passage of one call through it. A
//! [`SerializedCall`] witness accompanies each native call, and its
//! transitions admit only the legal order: acquire the lock, issue the
//! call, release the lock, and only then wait. [`call_protocol_wf`] is
//! the protocol invariant every transition preserves — above all that a
//! waiting call holds no lock. A lock found poisoned (a prior failure
//! while it was held) is not part of this protocol: the engine's state
//! can no longer be trusted, and the embedding must surface
//! [`crate::error::CodexError::Fatal`] rather than recover.

use vstd::prelude::*;

verus! {

/// The abstract passage of one native call through the serializer.
pub ghost struct SerializedCallView {
    /// The process-wide lock is held by this call.
    pub lock_held: bool,
    /// The native call has been issued.
    pub call_issued: bool,
    /// The caller is waiting for the completion callback.
    pub waiting: bool,
    /// The completion has been consumed.
    pub completed: bool,
}

/// The protocol invariant: a call is only issued or waited for in the
/// legal order, and — the key clause — a waiting call holds no lock.
pub open spec fn call_protocol_wf(c: SerializedCallView) -> bool {
    &&& c.waiting ==> c.call_issued && !c.lock_held
    &&& c.completed ==> c.call_issued && !c.lock_held && !c.waiting
}

/// Witness of one native call's passage through the Global Call
/// Serializer: created before the call, driven through its transitions
/// as the embedding acquires the lock, issues the call, releases the
/// lock and waits.
pub struct SerializedCall {
    lock_held: bool,
    call_issued: bool,
    waiting: bool,
    completed: bool,
}

impl View for SerializedCall {
    type V = SerializedCallView;

    closed spec fn view(&self) -> SerializedCallView {
        SerializedCallView {
            lock_held: self.lock_held,
            call_issued: self.call_issued,
            waiting: self.waiting,
            completed: self.completed,
        }
    }
}

impl SerializedCall {
    /// A call that has not entered the serializer yet.
    pub fn begin() -> (c: SerializedCall)
        ensures
            c@ == (SerializedCallView {
                lock_held: false,
                call_issued: false,
                waiting: false,
                completed: false,
            }),
            call_protocol_wf(c@),
    {
        SerializedCall { lock_held: false, call_issued: false, waiting: false, completed: false }
    }

    /// Whether the process-wide lock is held by this call, so the
    /// embedding can test a transition's legality before driving it.
    pub fn holds_lock(&self) -> (r: bool)
        ensures
            r == self@.lock_held,
    {
        self.lock_held
    }

    /// Whether the native call has been issued.
    pub fn issued(&self) -> (r: bool)
        ensures
            r == self@.call_issued,
    {
        self.call_issued
    }

    /// Whether the caller is waiting for the completion callback.
    pub fn is_waiting(&self) -> (r: bool)
        ensures
            r == self@.waiting,
    {
        self.waiting
    }

    /// Whether the completion has been consumed.
    pub fn is_completed(&self) -> (r: bool)
        ensures
            r == self@.completed,
    {
        self.completed
    }

    /// The embedding acquired the lock; the native call may now be
    /// issued.
    pub fn lock_acquired(&mut self)
        requires
            call_protocol_wf(old(self)@),
            !old(self)@.lock_held,
            !old(self)@.call_issued,
        ensures
            final(self)@ == (SerializedCallView { lock_held: true, ..old(self)@ }),
            call_protocol_wf(final(self)@),
    {
        self.lock_held = true;
    }

    /// The native call was invoked — under the lock, exactly once.
    pub fn call_invoked(&mut self)
        requires
            call_protocol_wf(old(self)@),
            old(self)@.lock_held,
            !old(self)@.call_issued,
        ensures
            final(self)@ == (SerializedCallView { call_issued: true, ..old(self)@ }),
            call_protocol_wf(final(self)@),
    {
        self.call_issued = true;
    }

    /// The lock was released, directly after the call invocation
    /// returned.
    pub fn lock_released(&mut self)
        requires
            call_protocol_wf(old(self)@),
            old(self)@.lock_held,
            old(self)@.call_issued,
        ensures
            final(self)@ == (SerializedCallView { lock_held: false, ..old(self)@ }),
            call_protocol_wf(final(self)@),
    {
        self.lock_held = false;
    }

    /// The caller starts waiting on the Completion Bridge. Only possible
    /// once the lock is out of its hands: there is no transition into the
    /// wait that holds the lock.
    pub fn wait_entered(&mut self)
        requires
            call_protocol_wf(old(self)@),
            old(self)@.call_issued,
            !old(self)@.lock_held,
            !old(self)@.waiting,
            !old(self)@.completed,
        ensures
            final(self)@ == (SerializedCallView { waiting: true, ..old(self)@ }),
            call_protocol_wf(final(self)@),
    {
        self.waiting = true;
    }

    /// The completion arrived and was consumed.
    pub fn wait_finished(&mut self)
        requires
            call_protocol_wf(old(self)@),
            old(self)@.waiting,
        ensures
            final(self)@ == (SerializedCallView { waiting: false, completed: true, ..old(self)@ }),
            call_protocol_wf(final(self)@),
    {
        self.waiting = false;
        self.completed = true;
    }
}

/// Law (the lock never spans the wait): in every state the protocol
/// admits, a call that is waiting for its completion holds no lock, so
/// other tasks can always queue their own native calls while this one
/// waits.
pub proof fn lemma_no_wait_under_lock(c: SerializedCallView)
    requires
        call_protocol_wf(c),
        c.waiting,
    ensures
        !c.lock_held,
{
}

} // verus!
