//! The node handle's lifecycle state machine.
//!
//! A node is one native context: an opaque address handed out by the
//! engine at creation, valid until the destroy call, and never to be
//! dereferenced after it. The state machine tracks that context, the
//! started flag, and the number of live shared handles, and decides which
//! native call may be issued in the current state: `Created`/`Stopped`
//! and `Started` alternate through start and stop, and `Destroyed` is
//! terminal.
//!
//! One [`CodexNode`] value is the single shared state behind every handle
//! of a node. The embedding keeps it inside its reference-counted,
//! lock-protected wrapper; each wrapper handle corresponds to one unit of
//! the `handles` count, maintained through [`CodexNode::clone_handle`] and
//! [`CodexNode::release_handle`]. Because every handle reads this one
//! state, anything one handle changes is what every other handle
//! observes.
//!
//! Each operation is a `*_request` / `*_commit` pair: the request decides,
//! from the current state alone and before anything is issued, whether the
//! native call is allowed — an illegal transition yields a state error and
//! no action — and the commit folds the call's outcome back in, flipping
//! the state only after the engine reported success.

use vstd::prelude::*;

use crate::engine::{CallOutcome, NativeAction, NodeInfo};
use crate::error::{native_failure, state_error, CodexError};

verus! {

/// The abstract lifecycle state: the native context address (`0` once
/// destroyed or torn down), the started flag, and the number of live
/// shared handles.
pub ghost struct NodeView {
    pub ctx: usize,
    pub started: bool,
    pub handles: usize,
}

/// The state after the engine confirmed a start.
pub open spec fn after_start(n: NodeView) -> NodeView {
    NodeView { started: true, ..n }
}

/// The state after the engine confirmed a stop.
pub open spec fn after_stop(n: NodeView) -> NodeView {
    NodeView { started: false, ..n }
}

/// The state after one more shared handle was taken.
pub open spec fn after_clone(n: NodeView) -> NodeView {
    NodeView { handles: (n.handles + 1) as usize, ..n }
}

/// The state after the context was released by an explicit destroy.
pub open spec fn after_destroy(n: NodeView) -> NodeView {
    NodeView { ctx: 0, ..n }
}

/// The state after the last handle was released: nothing left to issue a
/// call against.
pub open spec fn torn_down() -> NodeView {
    NodeView { ctx: 0, started: false, handles: 0 }
}

/// What the best-effort teardown of the last released handle must still
/// do to the engine: stop first if the node was left started, then
/// destroy the context. Both calls are fire-and-forget; their results
/// are deliberately swallowed — this path leaks nothing but reports
/// nothing, and ordered, checkable teardown is what the explicit destroy
/// is for.
#[derive(Clone, Copy, Debug, PartialEq, Eq, Structural)]
pub struct TeardownPlan {
    /// The context to stop and destroy; never `0`.
    pub ctx: usize,
    /// Whether a stop must be issued before the destroy.
    pub stop_first: bool,
}

/// The lifecycle state shared by every handle of one node.
#[derive(Debug)]
pub struct CodexNode {
    ctx: usize,
    started: bool,
    handles: usize,
}

impl View for CodexNode {
    type V = NodeView;

    closed spec fn view(&self) -> NodeView {
        NodeView { ctx: self.ctx, started: self.started, handles: self.handles }
    }
}

impl CodexNode {
    /// Wraps a freshly created native context, given the address the
    /// creation call returned and how its completion callback ended.
    ///
    /// Succeeds exactly when the engine handed back a context and the
    /// callback confirmed it: the node is then not started, holds that
    /// context — never a null one — and is the single live handle.
    pub fn new(ctx: usize, completion: CallOutcome) -> (r: Result<CodexNode, CodexError>)
        ensures
            r is Ok <==> (ctx != 0 && completion is Completed),
            r matches Ok(n) ==> n@ == (NodeView { ctx: ctx, started: false, handles: 1 }),
            ctx == 0 ==> (r matches Err(e) && state_error(e, "new"@, "Failed to create node"@)),
            ctx != 0 && completion is Rejected ==> (r matches Err(e) && state_error(
                e,
                "new"@,
                "Failed to create node"@,
            )),
            ctx != 0 ==> (completion matches CallOutcome::Failed { message } ==> (r matches Err(e)
                && native_failure(e, message@))),
    {
        if ctx == 0 {
            return Err(CodexError::node_error("new", "Failed to create node"));
        }
        match completion {
            CallOutcome::Completed { payload: _ } => Ok(
                CodexNode { ctx, started: false, handles: 1 },
            ),
            CallOutcome::Rejected => Err(CodexError::node_error("new", "Failed to create node")),
            CallOutcome::Failed { message } => Err(CodexError::native_failure(message)),
        }
    }

    /// The raw context address, read by the feature callers of this
    /// crate when they build their actions. Never handed out publicly:
    /// outside the lifecycle component the address only travels inside a
    /// [`NativeAction`].
    pub(crate) fn ctx(&self) -> (r: usize)
        ensures
            r == self@.ctx,
    {
        self.ctx
    }

    /// Pure read of the cached started flag; no native call.
    pub fn is_started(&self) -> (r: bool)
        ensures
            r == self@.started,
    {
        self.started
    }

    /// The number of live shared handles, which gates
    /// [`CodexNode::destroy_request`] and the teardown of
    /// [`CodexNode::release_handle`].
    pub fn handle_count(&self) -> (r: usize)
        ensures
            r == self@.handles,
    {
        self.handles
    }

    /// One more shared handle now refers to this state.
    pub fn clone_handle(&mut self)
        requires
            old(self)@.handles < usize::MAX,
        ensures
            final(self)@ == after_clone(old(self)@),
    {
        self.handles = self.handles + 1;
    }

    /// Decides whether a start may be issued: refused with a state error
    /// — and no native call — if the node is already started or already
    /// destroyed.
    pub fn start_request(&self) -> (r: Result<NativeAction, CodexError>)
        ensures
            self@.started ==> (r matches Err(e) && state_error(
                e,
                "start"@,
                "Node is already started"@,
            )),
            !self@.started && self@.ctx == 0 ==> (r matches Err(e) && state_error(
                e,
                "start"@,
                "Node is destroyed"@,
            )),
            !self@.started && self@.ctx != 0 ==> r == Ok::<_, CodexError>(
                NativeAction::Start { ctx: self@.ctx },
            ),
    {
        if self.started {
            Err(CodexError::node_error("start", "Node is already started"))
        } else if self.ctx == 0 {
            Err(CodexError::node_error("start", "Node is destroyed"))
        } else {
            Ok(NativeAction::Start { ctx: self.ctx })
        }
    }

    /// Folds the outcome of an issued start back in: the flag flips only
    /// after the engine confirmed completion.
    pub fn start_commit(&mut self, completion: CallOutcome) -> (r: Result<(), CodexError>)
        requires
            !old(self)@.started,
            old(self)@.ctx != 0,
        ensures
            r is Ok <==> completion is Completed,
            completion is Completed ==> final(self)@ == after_start(old(self)@),
            completion is Rejected ==> (r matches Err(e) && state_error(
                e,
                "start"@,
                "Failed to start node"@,
            )) && final(self)@ == old(self)@,
            completion matches CallOutcome::Failed { message } ==> (r matches Err(e)
                && native_failure(e, message@)) && final(self)@ == old(self)@,
    {
        match completion {
            CallOutcome::Completed { payload: _ } => {
                self.started = true;
                Ok(())
            },
            CallOutcome::Rejected => Err(CodexError::node_error("start", "Failed to start node")),
            CallOutcome::Failed { message } => Err(CodexError::native_failure(message)),
        }
    }

    /// Decides whether a stop may be issued: refused with a state error —
    /// and no native call — if the node is not started.
    pub fn stop_request(&self) -> (r: Result<NativeAction, CodexError>)
        ensures
            !self@.started ==> (r matches Err(e) && state_error(
                e,
                "stop"@,
                "Node is not started"@,
            )),
            self@.started ==> r == Ok::<_, CodexError>(NativeAction::Stop { ctx: self@.ctx }),
    {
        if !self.started {
            Err(CodexError::node_error("stop", "Node is not started"))
        } else {
            Ok(NativeAction::Stop { ctx: self.ctx })
        }
    }

    /// Folds the outcome of an issued stop back in: the flag flips only
    /// after the engine confirmed completion.
    pub fn stop_commit(&mut self, completion: CallOutcome) -> (r: Result<(), CodexError>)
        requires
            old(self)@.started,
        ensures
            r is Ok <==> completion is Completed,
            completion is Completed ==> final(self)@ == after_stop(old(self)@),
            completion is Rejected ==> (r matches Err(e) && state_error(
                e,
                "stop"@,
                "Failed to stop node"@,
            )) && final(self)@ == old(self)@,
            completion matches CallOutcome::Failed { message } ==> (r matches Err(e)
                && native_failure(e, message@)) && final(self)@ == old(self)@,
    {
        match completion {
            CallOutcome::Completed { payload: _ } => {
                self.started = false;
                Ok(())
            },
            CallOutcome::Rejected => Err(CodexError::node_error("stop", "Failed to stop node")),
            CallOutcome::Failed { message } => Err(CodexError::native_failure(message)),
        }
    }

    /// Decides whether the node may be destroyed: only the sole live
    /// handle of a stopped, not yet destroyed node may. Any refusal is a
    /// state error, and no native call touches the context.
    pub fn destroy_request(&self) -> (r: Result<NativeAction, CodexError>)
        ensures
            self@.handles != 1 ==> (r matches Err(e) && state_error(
                e,
                "destroy"@,
                "Cannot destroy: multiple references exist"@,
            )),
            self@.handles == 1 && self@.started ==> (r matches Err(e) && state_error(
                e,
                "destroy"@,
                "Node is still started"@,
            )),
            self@.handles == 1 && !self@.started && self@.ctx == 0 ==> (r matches Err(e)
                && state_error(e, "destroy"@, "Node is already destroyed"@)),
            self@.handles == 1 && !self@.started && self@.ctx != 0 ==> r == Ok::<_, CodexError>(
                NativeAction::Close { ctx: self@.ctx },
            ),
    {
        if self.handles != 1 {
            Err(CodexError::node_error("destroy", "Cannot destroy: multiple references exist"))
        } else if self.started {
            Err(CodexError::node_error("destroy", "Node is still started"))
        } else if self.ctx == 0 {
            Err(CodexError::node_error("destroy", "Node is already destroyed"))
        } else {
            Ok(NativeAction::Close { ctx: self.ctx })
        }
    }

    /// Folds the outcome of the awaited close call back in. Once the
    /// engine confirmed the close, the context is released: the returned
    /// destroy action is fire-and-forget — the engine reports no
    /// meaningful status for it — and the stored address is nulled so no
    /// further operation can be issued through this node.
    pub fn destroy_commit(&mut self, close_completion: CallOutcome) -> (r: Result<
        NativeAction,
        CodexError,
    >)
        requires
            old(self)@.handles == 1,
            !old(self)@.started,
            old(self)@.ctx != 0,
        ensures
            r is Ok <==> close_completion is Completed,
            close_completion is Completed ==> r == Ok::<_, CodexError>(
                NativeAction::Destroy { ctx: old(self)@.ctx },
            ) && final(self)@ == after_destroy(old(self)@),
            close_completion is Rejected ==> (r matches Err(e) && state_error(
                e,
                "destroy"@,
                "Failed to close node"@,
            )) && final(self)@ == old(self)@,
            close_completion matches CallOutcome::Failed { message } ==> (r matches Err(e)
                && native_failure(e, message@)) && final(self)@ == old(self)@,
    {
        match close_completion {
            CallOutcome::Completed { payload: _ } => {
                let ctx = self.ctx;
                self.ctx = 0;
                Ok(NativeAction::Destroy { ctx })
            },
            CallOutcome::Rejected => Err(CodexError::node_error("destroy", "Failed to close node")),
            CallOutcome::Failed { message } => Err(CodexError::native_failure(message)),
        }
    }

    /// Releases one shared handle. While other handles live, only the
    /// count drops. Releasing the last handle tears the state down and
    /// hands back the best-effort cleanup still owed to the engine —
    /// `None` when the context was already destroyed explicitly.
    pub fn release_handle(&mut self) -> (r: Option<TeardownPlan>)
        requires
            old(self)@.handles >= 1,
        ensures
            old(self)@.handles > 1 ==> r is None && final(self)@ == (NodeView {
                handles: (old(self)@.handles - 1) as usize,
                ..old(self)@
            }),
            old(self)@.handles == 1 ==> final(self)@ == torn_down(),
            old(self)@.handles == 1 && old(self)@.ctx == 0 ==> r is None,
            old(self)@.handles == 1 && old(self)@.ctx != 0 ==> r == Some(
                TeardownPlan { ctx: old(self)@.ctx, stop_first: old(self)@.started },
            ),
    {
        if self.handles > 1 {
            self.handles = self.handles - 1;
            None
        } else {
            let ctx = self.ctx;
            let started = self.started;
            self.ctx = 0;
            self.started = false;
            self.handles = 0;
            if ctx == 0 {
                None
            } else {
                Some(TeardownPlan { ctx, stop_first: started })
            }
        }
    }

    /// Decides whether an introspection query may be issued: refused with
    /// a state error — and no native call — once the node is destroyed.
    pub fn info_request(&self, info: NodeInfo) -> (r: Result<NativeAction, CodexError>)
        ensures
            self@.ctx == 0 ==> (r matches Err(e) && state_error(
                e,
                spec_info_operation(info),
                "Node is destroyed"@,
            )),
            self@.ctx != 0 ==> r == Ok::<_, CodexError>(
                NativeAction::Query { ctx: self@.ctx, info: info },
            ),
    {
        if self.ctx == 0 {
            Err(CodexError::node_error(info_operation(info), "Node is destroyed"))
        } else {
            Ok(NativeAction::Query { ctx: self.ctx, info })
        }
    }
}

/// The operation name an introspection query reports errors under.
pub open spec fn spec_info_operation(info: NodeInfo) -> Seq<char> {
    match info {
        NodeInfo::Version => "version"@,
        NodeInfo::Revision => "revision"@,
        NodeInfo::Repo => "repo"@,
        NodeInfo::Spr => "spr"@,
        NodeInfo::PeerId => "peer_id"@,
    }
}

/// The message an introspection query rejected by the engine reports.
pub open spec fn spec_info_rejection(info: NodeInfo) -> Seq<char> {
    match info {
        NodeInfo::Version => "Failed to get version"@,
        NodeInfo::Revision => "Failed to get revision"@,
        NodeInfo::Repo => "Failed to get repo path"@,
        NodeInfo::Spr => "Failed to get SPR"@,
        NodeInfo::PeerId => "Failed to get peer ID"@,
    }
}

/// The operation name an introspection query reports errors under.
pub fn info_operation(info: NodeInfo) -> (r: &'static str)
    ensures
        r@ == spec_info_operation(info),
{
    match info {
        NodeInfo::Version => "version",
        NodeInfo::Revision => "revision",
        NodeInfo::Repo => "repo",
        NodeInfo::Spr => "spr",
        NodeInfo::PeerId => "peer_id",
    }
}

/// Maps how an issued introspection query ended to the value the caller
/// receives: the payload exactly as the callback delivered it, or the
/// structured error for a rejection or native failure.
pub fn info_result(info: NodeInfo, completion: CallOutcome) -> (r: Result<String, CodexError>)
    ensures
        r is Ok <==> completion is Completed,
        completion matches CallOutcome::Completed { payload } ==> (r matches Ok(p) && p@
            == payload@),
        completion is Rejected ==> (r matches Err(e) && state_error(
            e,
            spec_info_operation(info),
            spec_info_rejection(info),
        )),
        completion matches CallOutcome::Failed { message } ==> (r matches Err(e) && native_failure(
            e,
            message@,
        )),
{
    match completion {
        CallOutcome::Completed { payload } => Ok(payload),
        CallOutcome::Rejected => {
            let message = match info {
                NodeInfo::Version => "Failed to get version",
                NodeInfo::Revision => "Failed to get revision",
                NodeInfo::Repo => "Failed to get repo path",
                NodeInfo::Spr => "Failed to get SPR",
                NodeInfo::PeerId => "Failed to get peer ID",
            };
            Err(CodexError::node_error(info_operation(info), message))
        },
        CallOutcome::Failed { message } => Err(CodexError::native_failure(message)),
    }
}

/// Law (shared state across handles): taking a handle changes only the
/// handle count, and taking a handle and starting the node commute. All
/// handles read the one shared state, so after a start through any one of
/// them the started flag — what `is_started` returns — is true through
/// every other.
pub proof fn lemma_clone_shares_started(n: NodeView)
    ensures
        after_clone(n).started == n.started,
        after_clone(n).ctx == n.ctx,
        after_start(after_clone(n)) == after_clone(after_start(n)),
        after_start(after_clone(n)).started,
{
}

/// Law (start/stop alternation): a confirmed start only sets the started
/// flag, and a confirmed stop after it restores the state exactly, so the
/// pair can repeat any number of times.
pub proof fn lemma_start_stop_alternation(n: NodeView)
    requires
        !n.started,
    ensures
        after_start(n).started,
        after_stop(after_start(n)) == n,
{
}

} // verus!
