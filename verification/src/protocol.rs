//! Guarantees of the load protocol as a whole.
//!
//! The coordinator's operations are atomic critical sections, so a concurrent
//! execution is an interleaving of three kinds of atomic step: a caller's
//! read-decide-write request step ([`crate::model_loader::ModelLoader::start_load`]),
//! the worker resolving the outstanding command's reply (fulfilling it, or
//! abandoning it by dropping the sending half), and the dispatching caller's
//! finalize step ([`crate::model_loader::ModelLoader::finish_load`]), which runs
//! only once its await has returned — that is, once the reply was resolved.
//!
//! [`SystemState`] abstracts such an execution: the coordinator's state, the
//! number of dispatched load commands whose reply is not yet resolved, and
//! whether a dispatching caller still has its finalize step to run.  The
//! request and finalize steps change the coordinator exactly as the
//! corresponding operations' contracts state, through the same transition
//! functions.

use crate::model_loader::{
    finish_next, loader_finished, loader_pending, request_dispatches, request_idempotent,
    request_next, request_rejected, LoaderModel, ModelLoaderStatus,
};
use vstd::prelude::*;

verus! {

/// One interleaved execution step of the load protocol.
pub enum SystemEvent {
    /// Some caller requests a load: the read-decide-write step runs.
    Request { file_id: Seq<char>, context_window: u32 },
    /// The worker resolves the outstanding command's reply: it fulfils it, or
    /// abandons it.  Enabled only while such a command exists.
    Resolve,
    /// The dispatching caller's await has returned and it finalizes the
    /// status; `success` says whether the awaited reply was a completion.
    /// Enabled only after its command's reply was resolved.
    Finalize { success: bool },
}

/// A concurrent execution of the protocol, abstracted to what the guarantees
/// speak of.
pub struct SystemState {
    /// The coordinator.
    pub loader: LoaderModel,
    /// Load commands dispatched to the worker and not yet resolved.
    pub unresolved: nat,
    /// Whether a dispatching caller has yet to run its finalize step.
    pub awaiting: bool,
}

/// A fresh system: a fresh coordinator, nothing in flight.
pub open spec fn system_init() -> SystemState {
    SystemState {
        loader: LoaderModel {
            status: ModelLoaderStatus::Unloaded,
            file_id: None,
            context_window: 0,
        },
        unresolved: 0,
        awaiting: false,
    }
}

/// One atomic step.  An event that is not enabled changes nothing: it cannot
/// occur in a real execution.
pub open spec fn system_step(s: SystemState, e: SystemEvent) -> SystemState {
    match e {
        SystemEvent::Request { file_id, context_window } => {
            if request_dispatches(s.loader, file_id, context_window) {
                SystemState {
                    loader: request_next(s.loader, file_id, context_window),
                    unresolved: s.unresolved + 1,
                    awaiting: true,
                }
            } else {
                // Rejected or idempotent: the coordinator is unchanged and
                // nothing is dispatched.
                s
            }
        },
        SystemEvent::Resolve => {
            if s.unresolved > 0 {
                SystemState { loader: s.loader, unresolved: (s.unresolved - 1) as nat, awaiting: s.awaiting }
            } else {
                s
            }
        },
        SystemEvent::Finalize { success } => {
            if s.awaiting && s.unresolved == 0 {
                SystemState { loader: finish_next(s.loader, success), unresolved: 0, awaiting: false }
            } else {
                s
            }
        },
    }
}

/// The state after an interleaving of steps.
pub open spec fn system_run(s: SystemState, events: Seq<SystemEvent>) -> SystemState
    decreases events.len(),
{
    if events.len() == 0 {
        s
    } else {
        system_run(system_step(s, events[0]), events.drop_first())
    }
}

/// The inductive invariant behind mutual exclusion: at most one load command
/// is outstanding; while one is, the coordinator reports `Loading` and its
/// dispatcher has yet to finalize.
pub open spec fn system_inv(s: SystemState) -> bool {
    &&& s.unresolved <= 1
    &&& (s.awaiting ==> s.loader.status is Loading)
    &&& (s.unresolved == 1 ==> s.awaiting)
}

/// Every atomic step preserves the invariant.
pub proof fn lemma_system_inv_step(s: SystemState, e: SystemEvent)
    requires
        system_inv(s),
    ensures
        system_inv(system_step(s, e)),
{
}

/// Every interleaving preserves the invariant.
pub proof fn lemma_system_inv_run(s: SystemState, events: Seq<SystemEvent>)
    requires
        system_inv(s),
    ensures
        system_inv(system_run(s, events)),
    decreases events.len(),
{
    if events.len() > 0 {
        lemma_system_inv_step(s, events[0]);
        lemma_system_inv_run(system_step(s, events[0]), events.drop_first());
    }
}

/// Mutual exclusion: whatever interleaving of concurrent load requests,
/// worker replies, and finalizations runs from a fresh system, at most one
/// load command is ever unresolved at the worker at any instant.
pub proof fn lemma_mutual_exclusion(events: Seq<SystemEvent>)
    ensures
        system_run(system_init(), events).unresolved <= 1,
{
    lemma_system_inv_run(system_init(), events);
}

/// While a load is in flight, further requests dispatch nothing and change
/// nothing, whatever their parameters: the request is rejected at once.
pub proof fn lemma_fast_rejection(s: LoaderModel, file_id: Seq<char>, context_window: u32)
    requires
        s.status is Loading,
    ensures
        request_rejected(s),
        !request_dispatches(s, file_id, context_window),
        request_next(s, file_id, context_window) == s,
{
}

/// Idempotent reload: after a request for a pair is dispatched and succeeds,
/// an identical request is a success on the spot — it dispatches nothing and
/// leaves the coordinator exactly as it was.
pub proof fn lemma_idempotent_reload(s: LoaderModel, file_id: Seq<char>, context_window: u32)
    requires
        request_dispatches(s, file_id, context_window),
    ensures
        ({
            let loaded = finish_next(request_next(s, file_id, context_window), true);
            &&& request_idempotent(loaded, file_id, context_window)
            &&& !request_dispatches(loaded, file_id, context_window)
            &&& request_next(loaded, file_id, context_window) == loaded
        }),
{
}

/// Status consistency: in every coordinator state, a load attempt has
/// concluded exactly when it concluded successfully or failed, and is pending
/// exactly when it has not concluded.
pub proof fn lemma_status_consistency(s: LoaderModel)
    ensures
        loader_finished(s) == (s.status is Loaded || s.status is Failed),
        loader_pending(s) == !loader_finished(s),
        loader_finished(s) == !(s.status is Unloaded || s.status is Loading),
{
}

/// Failure transition: a reply that carries the worker's failure description
/// is not a success, and finalizing from it leaves the coordinator `Failed`
/// (the operation's result then wraps that description verbatim, as the
/// finalize step's contract states).
pub proof fn lemma_failure_transition(
    s: LoaderModel,
    reply: Result<crate::channel::LoadModelResult, crate::channel::ChannelError>,
)
    requires
        reply matches Ok(Err(_)),
    ensures
        !crate::model_loader::finish_succeeds(reply),
        finish_next(s, crate::model_loader::finish_succeeds(reply)).status is Failed,
{
}

} // verus!
