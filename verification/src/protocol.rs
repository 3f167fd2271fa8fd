//! The handshake controller: a state machine from notification to action.
//!
//! The controller never touches the device itself. The caller reads the
//! current descriptor, asks [`Handler::register`] what to install, confirms
//! the installation, then feeds every delivered signal to
//! [`Handler::dispatch`] and performs the action it returns; when the loop
//! has exited, [`Handler::restore`] hands back the saved descriptor to
//! write to the device verbatim.

use vstd::prelude::*;
use crate::mode::{vt_mode, process_mode, process_mode_spec, VT_ACKACQ};

verus! {

/// Disposition code granting a pending switch-away.
pub const RELEASE_GRANT: i32 = 1;

/// Where the controller stands in the handshake lifecycle.
#[derive(Copy, Clone, Debug, PartialEq, Eq, Structural)]
pub enum Phase {
    /// The process-mode descriptor has been handed out, but the kernel has
    /// not yet confirmed its installation.
    Installing,
    /// The descriptor is installed; the dispatch loop may run.
    Active,
    /// A termination notification was dispatched; the loop is done and
    /// restoration is the only step left.
    Terminating,
    /// The saved descriptor has been handed back for re-installation.
    Restored,
}

/// What a delivered signal means to the controller.
#[derive(Copy, Clone, Debug, PartialEq, Eq, Structural)]
pub enum Event {
    /// The kernel has switched this VT back in and waits for an
    /// acknowledgment.
    Acquire,
    /// The kernel asks permission to switch this VT away.
    Release,
    /// A termination signal: leave the loop and restore.
    Terminate,
    /// Any other signal; informational only.
    Unknown,
}

/// What the caller must do in response to one notification.
#[derive(Copy, Clone, Debug, PartialEq, Eq, Structural)]
pub enum Action {
    /// Send the disposition code from [`Handler::acquire`].
    AckAcquire,
    /// Send the disposition code from [`Handler::release`].
    AckRelease,
    /// Leave the dispatch loop; restoration comes next.
    ExitLoop,
    /// Report the signal and keep waiting; not an error.
    Ignore,
}

/// Everything that can go wrong in the handshake.
#[derive(Copy, Clone, Debug, PartialEq, Eq, Structural)]
pub enum VtError {
    /// The opened device is not VT-capable; fatal at registration.
    NotAVirtualTerminal,
    /// The kernel refused to install a descriptor.
    ModeChangeRejected,
    /// The kernel did not accept a release/acquire disposition.
    DispositionRejected,
    /// Writing back the saved descriptor failed; reported, never retried.
    RestoreFailed,
}

/// The registration step being attempted when a fatal error occurred.
#[derive(Copy, Clone, Debug, PartialEq, Eq, Structural)]
pub enum RegisterStep {
    /// Opening the console device.
    Open,
    /// Reading the current descriptor.
    Query,
    /// Installing the process-mode descriptor.
    Install,
}

impl VtError {
    /// A user-facing description of the failure.
    pub fn message(&self) -> (s: &'static str)
        ensures
            s@ == (match *self {
                VtError::NotAVirtualTerminal => "device is not a virtual terminal"@,
                VtError::ModeChangeRejected => "kernel rejected the mode change"@,
                VtError::DispositionRejected => "kernel rejected the switch disposition"@,
                VtError::RestoreFailed => "failed to restore the previous mode"@,
            }),
    {
        match *self {
            VtError::NotAVirtualTerminal => "device is not a virtual terminal",
            VtError::ModeChangeRejected => "kernel rejected the mode change",
            VtError::DispositionRejected => "kernel rejected the switch disposition",
            VtError::RestoreFailed => "failed to restore the previous mode",
        }
    }
}

impl RegisterStep {
    /// The step name used in registration diagnostics.
    pub fn label(&self) -> (s: &'static str)
        ensures
            s@ == (match *self {
                RegisterStep::Open => "open"@,
                RegisterStep::Query => "query"@,
                RegisterStep::Install => "install"@,
            }),
    {
        match *self {
            RegisterStep::Open => "open",
            RegisterStep::Query => "query",
            RegisterStep::Install => "install",
        }
    }
}

/// An admissible binding of the two reserved signal numbers: both are real
/// signal numbers small enough for the descriptor's two-byte fields,
/// distinct from one another, and distinct from every termination signal,
/// so that no notification is ambiguous.
pub open spec fn valid_signal_choice(acqsig: i32, relsig: i32, term: Seq<i32>) -> bool {
    &&& 0 < acqsig <= i16::MAX as i32
    &&& 0 < relsig <= i16::MAX as i32
    &&& acqsig != relsig
    &&& !term.contains(acqsig)
    &&& !term.contains(relsig)
}

/// The handshake controller. It owns the saved descriptor and the signal
/// bindings for the life of the process; only its phase ever changes.
pub struct Handler {
    /// Lifecycle position; every operation is gated on it.
    pub phase: Phase,
    /// The descriptor observed at registration, reproduced at restoration.
    pub old_mode: vt_mode,
    /// Reserved signal announcing a completed switch-in.
    pub acqsig: i32,
    /// Reserved signal requesting release of the VT.
    pub relsig: i32,
    /// Signals treated as a shutdown request.
    pub term_signals: Vec<i32>,
}

impl Handler {
    /// Well-formedness: the signal bindings are admissible.
    pub open spec fn wf(self) -> bool {
        valid_signal_choice(self.acqsig, self.relsig, self.term_signals@)
    }

    /// The same controller in another lifecycle phase; nothing else moves.
    pub open spec fn with_phase(self, p: Phase) -> Handler {
        Handler { phase: p, ..self }
    }

    /// How a delivered signal is classified, in the dispatch order: the
    /// acquire binding first, then the release binding, then the
    /// termination set; everything else is unrecognized.
    pub open spec fn classify_spec(self, signal: i32) -> Event {
        if signal == self.acqsig {
            Event::Acquire
        } else if signal == self.relsig {
            Event::Release
        } else if self.term_signals@.contains(signal) {
            Event::Terminate
        } else {
            Event::Unknown
        }
    }

    /// The action owed for each class of notification: every switch-in is
    /// acknowledged, every switch-away is granted, a termination signal
    /// ends the loop, anything else is reported and ignored.
    pub open spec fn action_spec(e: Event) -> Action {
        match e {
            Event::Acquire => Action::AckAcquire,
            Event::Release => Action::AckRelease,
            Event::Terminate => Action::ExitLoop,
            Event::Unknown => Action::Ignore,
        }
    }

    /// The phase after one notification: only a termination signal moves
    /// the controller out of `Active`.
    pub open spec fn phase_after(self, signal: i32) -> Phase {
        if self.classify_spec(signal) == Event::Terminate {
            Phase::Terminating
        } else {
            Phase::Active
        }
    }

    /// Unregistered → Installing: save the observed descriptor and produce
    /// the process-mode descriptor that replaces it. Nothing is considered
    /// installed until the caller confirms with [`Handler::installed`]; a
    /// refusal goes through [`Handler::install_rejected`], which leaves no
    /// controller behind.
    pub fn register(observed: vt_mode, acqsig: i32, relsig: i32, term_signals: Vec<i32>) -> (r: (
        Handler,
        vt_mode,
    ))
        requires
            valid_signal_choice(acqsig, relsig, term_signals@),
        ensures
            r.0.phase == Phase::Installing,
            r.0.old_mode == observed,
            r.0.acqsig == acqsig,
            r.0.relsig == relsig,
            r.0.term_signals@ == term_signals@,
            r.0.wf(),
            r.1 == process_mode_spec(relsig as i16, acqsig as i16),
    {
        let install = process_mode(relsig as i16, acqsig as i16);
        let handler = Handler { phase: Phase::Installing, old_mode: observed, acqsig, relsig, term_signals };
        (handler, install)
    }

    /// Installing → Active: the kernel accepted the installation; the
    /// dispatch loop may now run.
    pub fn installed(&mut self)
        requires
            old(self).phase == Phase::Installing,
        ensures
            *final(self) == old(self).with_phase(Phase::Active),
    {
        self.phase = Phase::Active;
    }

    /// Installing → gone: the kernel refused the installation. The
    /// controller is consumed — no partial registration is left looking
    /// active — and the error to report is returned.
    pub fn install_rejected(self) -> (e: VtError)
        requires
            self.phase == Phase::Installing,
        ensures
            e == VtError::ModeChangeRejected,
    {
        VtError::ModeChangeRejected
    }

    /// The signals the dispatch loop must subscribe to: the two reserved
    /// signals followed by the termination set.
    pub fn signals(&self) -> (v: Vec<i32>)
        ensures
            v@ == seq![self.acqsig, self.relsig] + self.term_signals@,
    {
        let mut v: Vec<i32> = Vec::new();
        v.push(self.acqsig);
        v.push(self.relsig);
        let mut i: usize = 0;
        while i < self.term_signals.len()
            invariant
                i <= self.term_signals.len(),
                v@ == seq![self.acqsig, self.relsig] + self.term_signals@.take(i as int),
            decreases self.term_signals.len() - i,
        {
            v.push(self.term_signals[i]);
            proof {
                assert(self.term_signals@.take(i + 1 as int) =~= self.term_signals@.take(
                    i as int,
                ).push(self.term_signals@[i as int]));
                assert(v@ =~= seq![self.acqsig, self.relsig] + self.term_signals@.take(
                    i + 1 as int,
                ));
            }
            i += 1;
        }
        proof {
            assert(self.term_signals@.take(self.term_signals@.len() as int) =~= self
                .term_signals@);
        }
        v
    }

    /// Classifies one delivered signal.
    pub fn classify(&self, signal: i32) -> (e: Event)
        ensures
            e == self.classify_spec(signal),
    {
        if signal == self.acqsig {
            Event::Acquire
        } else if signal == self.relsig {
            Event::Release
        } else if contains_signal(&self.term_signals, signal) {
            Event::Terminate
        } else {
            Event::Unknown
        }
    }

    /// Active: handle exactly one notification, strictly in delivery
    /// order. The returned action is owed before the next notification is
    /// dispatched; only a termination signal changes the phase, and
    /// nothing else about the controller ever changes.
    ///
    /// Known limitation: the underlying delivery mechanism may coalesce
    /// identical rapid-fire signals into one logical notification, so the
    /// guarantee per kind of event is at-least-one, not exactly-one; each
    /// notification that does arrive is answered exactly once.
    pub fn dispatch(&mut self, signal: i32) -> (a: Action)
        requires
            old(self).phase == Phase::Active,
        ensures
            a == Handler::action_spec(old(self).classify_spec(signal)),
            *final(self) == old(self).with_phase(old(self).phase_after(signal)),
    {
        match self.classify(signal) {
            Event::Acquire => Action::AckAcquire,
            Event::Release => Action::AckRelease,
            Event::Terminate => {
                self.phase = Phase::Terminating;
                Action::ExitLoop
            },
            Event::Unknown => Action::Ignore,
        }
    }

    /// The disposition code acknowledging a completed switch-in.
    pub fn acquire(&self) -> (code: i32)
        requires
            self.phase == Phase::Active,
        ensures
            code == VT_ACKACQ as i32,
    {
        VT_ACKACQ as i32
    }

    /// The disposition code granting a pending switch-away. This system
    /// never contests or delays a switch: every release is granted at
    /// once. (A denied disposition is legal per the protocol but is a
    /// documented non-goal here.)
    pub fn release(&self) -> (code: i32)
        requires
            self.phase == Phase::Active,
        ensures
            code == RELEASE_GRANT,
    {
        RELEASE_GRANT
    }

    /// Active → Terminating without a notification: taken on exit paths
    /// where the loop cannot run (for example, the signal subscription
    /// itself failed), so that restoration remains reachable.
    pub fn terminate(&mut self)
        requires
            old(self).phase == Phase::Active,
        ensures
            *final(self) == old(self).with_phase(Phase::Terminating),
    {
        self.phase = Phase::Terminating;
    }

    /// Terminating → Restored: hand back the descriptor observed at
    /// registration, to be written to the device verbatim — never a
    /// default, never a reconstruction. Attempted exactly once; a failure
    /// of the write itself is reported as [`VtError::RestoreFailed`] and
    /// never retried.
    pub fn restore(&mut self) -> (m: vt_mode)
        requires
            old(self).phase == Phase::Terminating,
        ensures
            m == old(self).old_mode,
            *final(self) == old(self).with_phase(Phase::Restored),
    {
        self.phase = Phase::Restored;
        self.old_mode
    }
}

/// Linear scan for one signal number.
fn contains_signal(v: &Vec<i32>, x: i32) -> (b: bool)
    ensures
        b == v@.contains(x),
{
    let mut i: usize = 0;
    while i < v.len()
        invariant
            i <= v.len(),
            forall|j: int| 0 <= j < i ==> v@[j] != x,
        decreases v.len() - i,
    {
        if v[i] == x {
            assert(v@[i as int] == x);
            return true;
        }
        i += 1;
    }
    false
}

/// Decides the process exit status at shutdown: an orderly run exits
/// cleanly only if restoration succeeded — leaving the console in
/// process mode is a real operational failure and downgrades the code.
pub fn exit_code(restore_ok: bool) -> (c: i32)
    ensures
        c == (if restore_ok { 0 as i32 } else { 1 as i32 }),
{
    if restore_ok { 0 } else { 1 }
}

} // verus!
