//! Tests drive the handshake controller against a tiny simulated device:
//! a single `vt_mode` variable standing for the kernel's descriptor, which
//! only the explicit install/restore writes ever change.

use vtswitch::mode::{process_mode, vt_mode, VT_ACKACQ, VT_AUTO, VT_PROCESS};
use vtswitch::protocol::{exit_code, Action, Handler, Phase, RegisterStep, VtError, RELEASE_GRANT};

const ACQSIG: i32 = 10;
const RELSIG: i32 = 12;

fn term_signals() -> Vec<i32> {
    vec![15, 3, 2]
}

fn auto_mode() -> vt_mode {
    vt_mode { mode: VT_AUTO, waitv: 0, relsig: 0, acqsig: 0, frsig: 0 }
}

#[test]
fn default_mode_is_all_zero() {
    let m = <vt_mode as Default>::default();
    assert_eq!(m, vt_mode { mode: 0, waitv: 0, relsig: 0, acqsig: 0, frsig: 0 });
}

#[test]
fn process_mode_binds_reserved_signals() {
    let m = process_mode(RELSIG as i16, ACQSIG as i16);
    assert_eq!(m.mode, VT_PROCESS);
    assert_eq!(m.waitv, 0);
    assert_eq!(m.relsig, RELSIG as i16);
    assert_eq!(m.acqsig, ACQSIG as i16);
    assert_eq!(m.frsig, 0);
}

#[test]
fn registration_saves_and_replaces_descriptor() {
    let observed = vt_mode { mode: VT_AUTO, waitv: 1, relsig: 7, acqsig: 8, frsig: 0 };
    let (handler, install) = Handler::register(observed, ACQSIG, RELSIG, term_signals());
    assert_eq!(handler.phase, Phase::Installing);
    assert_eq!(handler.old_mode, observed);
    assert_eq!(install, process_mode(RELSIG as i16, ACQSIG as i16));
}

#[test]
fn signals_lists_reserved_then_termination() {
    let (handler, _) = Handler::register(auto_mode(), ACQSIG, RELSIG, term_signals());
    assert_eq!(handler.signals(), vec![ACQSIG, RELSIG, 15, 3, 2]);
}

#[test]
fn dispatch_classifies_each_kind() {
    let (mut handler, _) = Handler::register(auto_mode(), ACQSIG, RELSIG, term_signals());
    handler.installed();
    assert_eq!(handler.dispatch(ACQSIG), Action::AckAcquire);
    assert_eq!(handler.dispatch(RELSIG), Action::AckRelease);
    assert_eq!(handler.dispatch(1), Action::Ignore);
    assert_eq!(handler.dispatch(30), Action::Ignore);
    assert_eq!(handler.phase, Phase::Active);
    assert_eq!(handler.dispatch(2), Action::ExitLoop);
    assert_eq!(handler.phase, Phase::Terminating);
}

#[test]
fn disposition_codes_match_the_kernel_protocol() {
    let (mut handler, _) = Handler::register(auto_mode(), ACQSIG, RELSIG, term_signals());
    handler.installed();
    assert_eq!(handler.acquire(), VT_ACKACQ as i32);
    assert_eq!(handler.release(), RELEASE_GRANT);
    assert_eq!(handler.release(), 1);
}

// Scenario: a device originally in AUTO mode with signals unset is
// registered; the descriptor read back shows PROCESS mode with the two
// reserved signals bound; after a termination signal and restoration the
// descriptor reads back as the pre-registration value exactly.
#[test]
fn auto_device_round_trip_restores_exact_value() {
    let mut device = auto_mode();
    let before = device;

    let (mut handler, install) = Handler::register(device, ACQSIG, RELSIG, term_signals());
    device = install; // the kernel accepted SET_MODE
    handler.installed();

    assert_eq!(device.mode, VT_PROCESS);
    assert_eq!(device.relsig, RELSIG as i16);
    assert_eq!(device.acqsig, ACQSIG as i16);

    assert_eq!(handler.dispatch(15), Action::ExitLoop);
    device = handler.restore();

    assert_eq!(device, before);
    assert_eq!(device.mode, VT_AUTO);
}

// Scenario: a release notification followed immediately by an acquire
// notification is acknowledged in order (grant, then acquire-complete)
// before any queued termination is honored.
#[test]
fn release_then_acquire_acknowledged_in_order_before_termination() {
    let (mut handler, _) = Handler::register(auto_mode(), ACQSIG, RELSIG, term_signals());
    handler.installed();

    // release, acquire and a termination signal are all queued; the loop
    // drains them strictly in delivery order
    let queue = [RELSIG, ACQSIG, 15];
    let mut acks: Vec<i32> = Vec::new();
    for signal in queue {
        match handler.dispatch(signal) {
            Action::AckRelease => acks.push(handler.release()),
            Action::AckAcquire => acks.push(handler.acquire()),
            Action::ExitLoop => break,
            Action::Ignore => {}
        }
    }
    assert_eq!(acks, vec![RELEASE_GRANT, VT_ACKACQ as i32]);
    assert_eq!(handler.phase, Phase::Terminating);
}

// Scenario: the descriptor query fails, so registration aborts before any
// SET_MODE: the device still holds its original value, the diagnostic
// names the query step, and the process exit is non-zero.
#[test]
fn query_failure_aborts_before_any_install() {
    let device = vt_mode { mode: VT_AUTO, waitv: 0, relsig: 4, acqsig: 5, frsig: 0 };
    let before = device;

    // GET_MODE failed: no handler is built and no SET_MODE is issued
    let err = VtError::NotAVirtualTerminal;
    assert_eq!(err.message(), "device is not a virtual terminal");
    assert_eq!(RegisterStep::Query.label(), "query");
    assert_eq!(device, before);
    assert_ne!(exit_code(false), 0);
}

#[test]
fn rejected_install_leaves_no_partial_registration() {
    let device = auto_mode();
    let before = device;

    let (handler, _install) = Handler::register(device, ACQSIG, RELSIG, term_signals());
    // the kernel refused SET_MODE: it applies a descriptor atomically or
    // not at all, so the device variable is never assigned
    let err = handler.install_rejected();
    assert_eq!(err, VtError::ModeChangeRejected);
    assert_eq!(device, before);
}

#[test]
fn restore_returns_saved_value_after_notification_storm() {
    let before = vt_mode { mode: VT_PROCESS, waitv: 0, relsig: 1, acqsig: 2, frsig: 0 };
    let (mut handler, _) = Handler::register(before, ACQSIG, RELSIG, term_signals());
    handler.installed();
    for round in 0..100 {
        let signal = if round % 2 == 0 { RELSIG } else { ACQSIG };
        let action = handler.dispatch(signal);
        assert_ne!(action, Action::ExitLoop);
    }
    assert_eq!(handler.dispatch(3), Action::ExitLoop);
    assert_eq!(handler.restore(), before);
}

#[test]
fn one_grant_per_release_notification() {
    let (mut handler, _) = Handler::register(auto_mode(), ACQSIG, RELSIG, term_signals());
    handler.installed();
    let queue = [RELSIG, 1, RELSIG, ACQSIG, RELSIG];
    let mut grants = 0;
    for signal in queue {
        // each dispatched notification yields exactly one action, and it
        // is the grant exactly for release notifications
        let action = handler.dispatch(signal);
        if action == Action::AckRelease {
            grants += 1;
        }
        assert_eq!(action == Action::AckRelease, signal == RELSIG);
    }
    assert_eq!(grants, 3);
}

#[test]
fn phases_run_in_protocol_order() {
    let (mut handler, _) = Handler::register(auto_mode(), ACQSIG, RELSIG, term_signals());
    assert_eq!(handler.phase, Phase::Installing);
    handler.installed();
    assert_eq!(handler.phase, Phase::Active);
    handler.terminate();
    assert_eq!(handler.phase, Phase::Terminating);
    handler.restore();
    assert_eq!(handler.phase, Phase::Restored);
}

#[test]
fn classification_is_independent_of_binding_order() {
    // swapped reserved signals classify accordingly
    let (mut handler, install) = Handler::register(auto_mode(), RELSIG, ACQSIG, term_signals());
    assert_eq!(install.relsig, ACQSIG as i16);
    assert_eq!(install.acqsig, RELSIG as i16);
    handler.installed();
    assert_eq!(handler.dispatch(RELSIG), Action::AckAcquire);
    assert_eq!(handler.dispatch(ACQSIG), Action::AckRelease);
}

#[test]
fn exit_code_downgrades_on_restore_failure() {
    assert_eq!(exit_code(true), 0);
    assert_eq!(exit_code(false), 1);
}

#[test]
fn every_error_has_a_distinct_message() {
    let errors = [
        VtError::NotAVirtualTerminal,
        VtError::ModeChangeRejected,
        VtError::DispositionRejected,
        VtError::RestoreFailed,
    ];
    let messages: Vec<&str> = errors.iter().map(|e| e.message()).collect();
    assert_eq!(messages[0], "device is not a virtual terminal");
    assert_eq!(messages[1], "kernel rejected the mode change");
    assert_eq!(messages[2], "kernel rejected the switch disposition");
    assert_eq!(messages[3], "failed to restore the previous mode");
    for i in 0..messages.len() {
        for j in 0..i {
            assert_ne!(messages[i], messages[j]);
        }
    }
}

#[test]
fn register_step_labels() {
    assert_eq!(RegisterStep::Open.label(), "open");
    assert_eq!(RegisterStep::Query.label(), "query");
    assert_eq!(RegisterStep::Install.label(), "install");
}
