//! Process-mediated virtual-terminal (VT) switch control.
//!
//! By default the kernel applies a VT switch request immediately, which is
//! unsafe for a process holding exclusive console state across the switch.
//! This library models the handshake that puts a VT into process-controlled
//! switching: the previous mode descriptor is saved, a process-mode
//! descriptor with two reserved signal numbers is installed, each
//! release/acquire notification from the kernel is acknowledged in delivery
//! order, and the saved descriptor is written back verbatim on every exit
//! path.
//!
//! The library is pure: it decides, the caller performs. The caller opens
//! the console device, issues the control calls, and waits for signals; it
//! feeds every observed value and notification to the [`protocol::Handler`]
//! state machine and carries out the action the handler returns.

pub mod mode;
pub mod protocol;
pub mod laws;
