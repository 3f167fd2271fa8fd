//! The kernel's VT mode control record and the descriptors this system
//! exchanges with it.

use vstd::prelude::*;

verus! {

/// Kernel discipline: the kernel applies VT switches on its own.
pub const VT_AUTO: i8 = 0;

/// Process discipline: the kernel forwards each switch request to the
/// owning process as a signal and waits for an acknowledgment.
pub const VT_PROCESS: i8 = 1;

/// Disposition code acknowledging a completed switch-in.
pub const VT_ACKACQ: i8 = 2;

/// The VT mode descriptor: the kernel's switching configuration for one
/// console device. Field order and widths mirror the kernel's control
/// record exactly (`mode` and `waitv` are one byte, the three signal
/// fields are two bytes), a hard interoperability constraint for any value
/// that crosses the process/kernel boundary.
#[allow(non_camel_case_types)]
#[derive(Copy, Clone, Debug, PartialEq, Eq, Structural)]
pub struct vt_mode {
    /// Switching discipline: [`VT_AUTO`] or [`VT_PROCESS`].
    pub mode: i8,
    /// Whether writes wait until the VT is active; unused here.
    pub waitv: i8,
    /// Signal raised by the kernel to request release of the VT.
    pub relsig: i16,
    /// Signal raised by the kernel when the VT has been reacquired.
    pub acqsig: i16,
    /// Reserved; always zero.
    pub frsig: i16,
}

impl Default for vt_mode {
    /// The all-zero record: automatic switching with no signals bound.
    fn default() -> (m: vt_mode)
        ensures
            m == (vt_mode { mode: 0, waitv: 0, relsig: 0, acqsig: 0, frsig: 0 }),
    {
        vt_mode { mode: 0, waitv: 0, relsig: 0, acqsig: 0, frsig: 0 }
    }
}

/// The descriptor a registration installs: process-controlled switching
/// with the two reserved signal numbers bound and both spare fields zero.
pub open spec fn process_mode_spec(relsig: i16, acqsig: i16) -> vt_mode {
    vt_mode { mode: VT_PROCESS, waitv: 0, relsig: relsig, acqsig: acqsig, frsig: 0 }
}

/// Builds the descriptor to install at registration.
pub fn process_mode(relsig: i16, acqsig: i16) -> (m: vt_mode)
    ensures
        m == process_mode_spec(relsig, acqsig),
{
    vt_mode { mode: VT_PROCESS, waitv: 0, relsig, acqsig, frsig: 0 }
}

} // verus!
