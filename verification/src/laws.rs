//! Protocol-wide guarantees, proved over a model of a whole session.
//!
//! The model folds the dispatch loop over the queue of pending
//! notifications, strictly in delivery order, exactly as
//! [`Handler::dispatch`](crate::protocol::Handler::dispatch) commits to
//! handling each one. Two facts about the environment are encoded where
//! the model touches the device: an acknowledgment carries only a
//! disposition code and never rewrites the mode descriptor, and the
//! kernel installs a descriptor atomically or not at all.

use vstd::prelude::*;
use crate::mode::vt_mode;
use crate::protocol::{Action, Handler, Phase, Event};

verus! {

/// The controller after one notification has been dispatched: only the
/// phase can move; the saved descriptor and the signal bindings never do.
pub open spec fn dispatch_post(h: Handler, signal: i32) -> Handler {
    h.with_phase(h.phase_after(signal))
}

/// The dispatch loop over a queue of pending notifications: one at a
/// time, in delivery order, until a termination signal moves the
/// controller out of `Active` or the queue is drained.
pub open spec fn run_loop(h: Handler, pending: Seq<i32>) -> Handler
    decreases pending.len(),
{
    if pending.len() == 0 || h.phase != Phase::Active {
        h
    } else {
        run_loop(dispatch_post(h, pending[0]), pending.drop_first())
    }
}

/// The trace of actions the loop emits: exactly one per notification
/// processed while `Active`, in order, ending with the action for the
/// first termination signal.
pub open spec fn loop_actions(h: Handler, pending: Seq<i32>) -> Seq<Action>
    decreases pending.len(),
{
    if pending.len() == 0 || h.phase != Phase::Active {
        Seq::<Action>::empty()
    } else {
        seq![Handler::action_spec(h.classify_spec(pending[0]))] + loop_actions(
            dispatch_post(h, pending[0]),
            pending.drop_first(),
        )
    }
}

/// The descriptor the device holds once a full session has restored: the
/// loop issues only disposition codes, which never rewrite the
/// descriptor, and restoration writes back the controller's saved one.
pub open spec fn device_after_session(h: Handler, pending: Seq<i32>) -> vt_mode {
    run_loop(h, pending).old_mode
}

/// The descriptor the device holds after the registration exchange. The
/// kernel applies an installation atomically or not at all: if the query
/// failed, nothing was ever offered; if the installation was refused, the
/// original descriptor still stands.
pub open spec fn device_after_registration(
    initial: vt_mode,
    query_ok: bool,
    install_ok: bool,
    installed: vt_mode,
) -> vt_mode {
    if query_ok && install_ok {
        installed
    } else {
        initial
    }
}

/// The dispatch loop moves nothing but the phase: the saved descriptor
/// and the signal bindings survive any queue of notifications untouched.
pub proof fn lemma_run_loop_preserves_bindings(h: Handler, pending: Seq<i32>)
    ensures
        run_loop(h, pending).old_mode == h.old_mode,
        run_loop(h, pending).acqsig == h.acqsig,
        run_loop(h, pending).relsig == h.relsig,
        run_loop(h, pending).term_signals == h.term_signals,
    decreases pending.len(),
{
    if pending.len() == 0 || h.phase != Phase::Active {
    } else {
        lemma_run_loop_preserves_bindings(dispatch_post(h, pending[0]), pending.drop_first());
    }
}

/// Idempotent restore: for any sequence of acquire/release (or any other)
/// notifications between registration and termination, the descriptor
/// written back at restoration is byte-for-byte the one observed
/// immediately before registration.
pub proof fn lemma_idempotent_restore(observed: vt_mode, h: Handler, pending: Seq<i32>)
    requires
        h.phase == Phase::Active,
        h.old_mode == observed,
    ensures
        device_after_session(h, pending) == observed,
{
    lemma_run_loop_preserves_bindings(h, pending);
}

/// Acknowledgment liveness: every notification processed while `Active`
/// is answered by exactly one action, at its own position in the trace —
/// so each is settled before the next is dispatched — and that action is
/// the grant acknowledgment precisely for release notifications. A
/// notification is processed whenever no termination signal precedes it
/// in the queue.
pub proof fn lemma_acknowledgment_liveness(h: Handler, pending: Seq<i32>, i: int)
    requires
        h.phase == Phase::Active,
        0 <= i < pending.len(),
        forall|j: int| 0 <= j < i ==> h.classify_spec(pending[j]) != Event::Terminate,
    ensures
        i < loop_actions(h, pending).len(),
        loop_actions(h, pending)[i] == Handler::action_spec(h.classify_spec(pending[i])),
        loop_actions(h, pending)[i] == Action::AckRelease <==> h.classify_spec(pending[i])
            == Event::Release,
    decreases i,
{
    if i == 0 {
    } else {
        let h2 = dispatch_post(h, pending[0]);
        assert(h.classify_spec(pending[0]) != Event::Terminate);
        assert(h2.phase == Phase::Active);
        assert(forall|s: i32| h2.classify_spec(s) == h.classify_spec(s));
        assert(forall|j: int|
            0 <= j < i - 1 ==> h2.classify_spec(pending.drop_first()[j]) != Event::Terminate);
        lemma_acknowledgment_liveness(h2, pending.drop_first(), i - 1);
        assert(pending.drop_first()[i - 1] == pending[i]);
    }
}

/// Restoration and dispatch exclude one another. Dispatch requires the
/// `Active` phase and restoration the `Terminating` phase, so restoration
/// can begin only once the loop has exited; and once the controller has
/// left `Active` — in particular once it is `Restored` — the loop
/// processes nothing further and emits no further acknowledgment.
pub proof fn lemma_no_dispatch_after_loop_exit(h: Handler, pending: Seq<i32>)
    requires
        h.phase != Phase::Active,
    ensures
        run_loop(h, pending) == h,
        loop_actions(h, pending) == Seq::<Action>::empty(),
{
}

/// The loop on its own ends in `Active` (queue drained) or `Terminating`
/// (termination signal seen); it never reaches `Restored`. Restoration is
/// a separate step, taken strictly after the loop has exited.
pub proof fn lemma_loop_never_restores(h: Handler, pending: Seq<i32>)
    requires
        h.phase == Phase::Active,
    ensures
        run_loop(h, pending).phase == Phase::Active || run_loop(h, pending).phase
            == Phase::Terminating,
    decreases pending.len(),
{
    if pending.len() == 0 {
    } else {
        let h2 = dispatch_post(h, pending[0]);
        if h2.phase == Phase::Active {
            lemma_loop_never_restores(h2, pending.drop_first());
        } else {
            lemma_no_dispatch_after_loop_exit(h2, pending.drop_first());
        }
    }
}

/// Registration atomicity: if the query or the installation fails, no
/// descriptor mutation is left behind — a subsequent read of the device
/// returns the original, untouched value.
pub proof fn lemma_registration_atomic(
    initial: vt_mode,
    query_ok: bool,
    install_ok: bool,
    installed: vt_mode,
)
    ensures
        !(query_ok && install_ok) ==> device_after_registration(
            initial,
            query_ok,
            install_ok,
            installed,
        ) == initial,
{
}

} // verus!
