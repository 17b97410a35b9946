//! The Completion Bridge: a single-use cell that correlates one native
//! call with its eventual callback-delivered result.
//!
//! One bridge is created immediately before each native call; the engine's
//! callback trampoline resolves it exactly once with a terminal status, and
//! the caller that issued the call consumes the result exactly once. Calls
//! that stream intermediate data attach a progress channel before the call
//! is issued; a progress status then records a payload on that channel and
//! does not resolve the bridge.
//!
//! The embedding application owns the waiting and waking: it holds the
//! bridge behind its own exclusion primitive, has the trampoline feed every
//! callback invocation into [`CompletionBridge::resolve`], and parks the
//! caller until [`CompletionBridge::is_resolved`] reports true. Everything
//! the trampoline may do to the cell is decided here, so a duplicate or
//! late callback can never overwrite a delivered result.

use vstd::prelude::*;

verus! {

/// Classification of one callback invocation, as the trampoline reports
/// it: the two terminal statuses, or an intermediate progress
/// notification.
#[derive(Clone, Copy, Debug, PartialEq, Eq, Structural)]
pub enum CallStatus {
    /// Terminal: the call completed and the payload is its result.
    Success,
    /// Intermediate: the payload is a streamed chunk; the call is still
    /// running.
    Progress,
    /// Terminal: the call failed and the payload is the engine's message.
    Failure,
}

/// What one [`CompletionBridge::resolve`] call did, so the embedding knows
/// whether a progress handler must now run.
#[derive(Clone, Copy, Debug, PartialEq, Eq, Structural)]
pub enum ResolveEffect {
    /// The invocation was dropped: the bridge was already resolved, or a
    /// progress payload arrived with no progress channel attached.
    Ignored,
    /// A progress payload was recorded on the progress channel.
    ProgressDelivered,
    /// The bridge is now resolved; the waiter can consume the result.
    Resolved,
}

/// The abstract state of a bridge: the single-assignment result slot, the
/// resolved flag, and the progress channel with everything delivered on it
/// so far, oldest first.
#[verifier::ext_equal]
pub ghost struct BridgeView {
    pub resolved: bool,
    pub succeeded: bool,
    pub payload: Seq<u8>,
    pub progress_attached: bool,
    pub progress: Seq<Seq<u8>>,
}

/// The state of a freshly created bridge.
pub open spec fn unresolved_bridge() -> BridgeView {
    BridgeView {
        resolved: false,
        succeeded: false,
        payload: Seq::empty(),
        progress_attached: false,
        progress: Seq::empty(),
    }
}

/// How one callback invocation transforms a bridge: a no-op once resolved,
/// a recorded payload for progress on an attached channel, a dropped
/// payload for progress without one, and the single assignment of the
/// result slot for a terminal status.
pub open spec fn bridge_step(b: BridgeView, status: CallStatus, payload: Seq<u8>) -> BridgeView {
    if b.resolved {
        b
    } else if status is Progress {
        if b.progress_attached {
            BridgeView { progress: b.progress.push(payload), ..b }
        } else {
            b
        }
    } else {
        BridgeView { resolved: true, succeeded: status is Success, payload: payload, ..b }
    }
}

/// The effect [`bridge_step`] has, as reported to the embedding.
pub open spec fn bridge_effect(b: BridgeView, status: CallStatus) -> ResolveEffect {
    if b.resolved {
        ResolveEffect::Ignored
    } else if status is Progress {
        if b.progress_attached {
            ResolveEffect::ProgressDelivered
        } else {
            ResolveEffect::Ignored
        }
    } else {
        ResolveEffect::Resolved
    }
}

/// The single-resolution synchronization cell for one outstanding native
/// call. Payloads are raw bytes: decoding them (and releasing the native
/// buffers they came from) is the embedding's marshaling work.
pub struct CompletionBridge {
    resolved: bool,
    succeeded: bool,
    payload: Vec<u8>,
    progress_attached: bool,
    progress: Vec<Vec<u8>>,
}

impl View for CompletionBridge {
    type V = BridgeView;

    closed spec fn view(&self) -> BridgeView {
        BridgeView {
            resolved: self.resolved,
            succeeded: self.succeeded,
            payload: self.payload@,
            progress_attached: self.progress_attached,
            progress: self.progress.deep_view(),
        }
    }
}

impl CompletionBridge {
    /// A fresh, unresolved bridge with no progress channel.
    pub fn new() -> (b: CompletionBridge)
        ensures
            b@ == unresolved_bridge(),
    {
        let b = CompletionBridge {
            resolved: false,
            succeeded: false,
            payload: Vec::new(),
            progress_attached: false,
            progress: Vec::new(),
        };
        proof {
            assert(b@ =~= unresolved_bridge());
        }
        b
    }

    /// Opens the progress channel. Must happen before the native call is
    /// issued — the trampoline may fire immediately on another execution
    /// context — hence before any resolution.
    pub fn attach_progress_handler(&mut self)
        requires
            !old(self)@.resolved,
        ensures
            final(self)@ == (BridgeView { progress_attached: true, ..old(self)@ }),
    {
        self.progress_attached = true;
        proof {
            assert(self@ =~= (BridgeView { progress_attached: true, ..old(self)@ }));
        }
    }

    /// Whether a terminal status has arrived and the result can be
    /// consumed.
    pub fn is_resolved(&self) -> (r: bool)
        ensures
            r == self@.resolved,
    {
        self.resolved
    }

    /// Folds one callback invocation into the cell. The result slot is
    /// written at most once: on a bridge that is already resolved every
    /// invocation, terminal or not, leaves the state untouched.
    pub fn resolve(&mut self, status: CallStatus, payload: Vec<u8>) -> (effect: ResolveEffect)
        ensures
            final(self)@ == bridge_step(old(self)@, status, payload@),
            effect == bridge_effect(old(self)@, status),
    {
        if self.resolved {
            proof {
                assert(self@ =~= bridge_step(old(self)@, status, payload@));
            }
            ResolveEffect::Ignored
        } else {
            match status {
                CallStatus::Progress => {
                    if self.progress_attached {
                        self.progress.push(payload);
                        proof {
                            assert(self@.progress =~~= old(self)@.progress.push(payload@));
                            assert(self@ =~= bridge_step(old(self)@, status, payload@));
                        }
                        ResolveEffect::ProgressDelivered
                    } else {
                        proof {
                            assert(self@ =~= bridge_step(old(self)@, status, payload@));
                        }
                        ResolveEffect::Ignored
                    }
                },
                CallStatus::Success => {
                    self.succeeded = true;
                    self.payload = payload;
                    self.resolved = true;
                    proof {
                        assert(self@ =~= bridge_step(old(self)@, status, payload@));
                    }
                    ResolveEffect::Resolved
                },
                CallStatus::Failure => {
                    self.succeeded = false;
                    self.payload = payload;
                    self.resolved = true;
                    proof {
                        assert(self@ =~= bridge_step(old(self)@, status, payload@));
                    }
                    ResolveEffect::Resolved
                },
            }
        }
    }

    /// Consumes the resolved bridge: the terminal payload on success, the
    /// engine's failure message otherwise. The waiter never sees a
    /// progress payload here.
    pub fn take_result(self) -> (r: Result<Vec<u8>, Vec<u8>>)
        requires
            self@.resolved,
        ensures
            self@.succeeded ==> (r matches Ok(p) && p@ == self@.payload),
            !self@.succeeded ==> (r matches Err(m) && m@ == self@.payload),
    {
        if self.succeeded {
            Ok(self.payload)
        } else {
            Err(self.payload)
        }
    }

    /// Everything delivered on the progress channel so far, oldest first.
    pub fn progress_payloads(&self) -> (r: &Vec<Vec<u8>>)
        ensures
            r.deep_view() == self@.progress,
    {
        &self.progress
    }

    /// Consumes the resolved bridge into its result slot — as
    /// [`CompletionBridge::take_result`] would return it — and the
    /// progress channel's payloads, for callers whose data arrived as a
    /// stream.
    pub fn into_parts(self) -> (r: (Result<Vec<u8>, Vec<u8>>, Vec<Vec<u8>>))
        requires
            self@.resolved,
        ensures
            self@.succeeded ==> (r.0 matches Ok(p) && p@ == self@.payload),
            !self@.succeeded ==> (r.0 matches Err(m) && m@ == self@.payload),
            r.1.deep_view() == self@.progress,
    {
        let CompletionBridge { resolved: _, succeeded, payload, progress_attached: _, progress } =
            self;
        if succeeded {
            (Ok(payload), progress)
        } else {
            (Err(payload), progress)
        }
    }
}

/// A run of progress invocations folded into a bridge, oldest first.
pub open spec fn apply_progress(b: BridgeView, chunks: Seq<Seq<u8>>) -> BridgeView
    decreases chunks.len(),
{
    if chunks.len() == 0 {
        b
    } else {
        apply_progress(bridge_step(b, CallStatus::Progress, chunks.first()), chunks.drop_first())
    }
}

/// A run of progress invocations on an unresolved bridge with an attached
/// channel records every chunk, in order, and resolves nothing.
pub proof fn lemma_progress_stream(b: BridgeView, chunks: Seq<Seq<u8>>)
    requires
        !b.resolved,
        b.progress_attached,
    ensures
        !apply_progress(b, chunks).resolved,
        apply_progress(b, chunks).progress_attached,
        apply_progress(b, chunks).progress =~= b.progress + chunks,
        apply_progress(b, chunks).succeeded == b.succeeded,
        apply_progress(b, chunks).payload == b.payload,
    decreases chunks.len(),
{
    if chunks.len() == 0 {
        assert(b.progress + chunks =~= b.progress);
    } else {
        let b1 = bridge_step(b, CallStatus::Progress, chunks.first());
        lemma_progress_stream(b1, chunks.drop_first());
        assert(b1.progress + chunks.drop_first() =~= b.progress + chunks);
    }
}

/// Law: once a bridge is resolved, any further resolution attempt —
/// duplicate terminal, late failure, stray progress — is a no-op; the
/// result first written is the result the waiter consumes.
pub proof fn lemma_second_resolution_is_noop(b: BridgeView, status: CallStatus, payload: Seq<u8>)
    requires
        b.resolved,
    ensures
        bridge_step(b, status, payload) == b,
{
}

/// Law: a progress channel attached before the call sees, for a call that
/// delivers some chunks and then one terminal status, exactly those chunks
/// in order — no more, no fewer — while the waiter receives exactly the
/// terminal payload, never a progress payload.
pub proof fn lemma_progress_then_terminal(
    b: BridgeView,
    chunks: Seq<Seq<u8>>,
    status: CallStatus,
    outcome: Seq<u8>,
)
    requires
        !b.resolved,
        b.progress_attached,
        !(status is Progress),
    ensures
        bridge_step(apply_progress(b, chunks), status, outcome).resolved,
        bridge_step(apply_progress(b, chunks), status, outcome).progress =~= b.progress + chunks,
        bridge_step(apply_progress(b, chunks), status, outcome).payload == outcome,
        bridge_step(apply_progress(b, chunks), status, outcome).succeeded == (status is Success),
{
    lemma_progress_stream(b, chunks);
}

} // verus!
