//! Hart lifecycle management offered to the call router.
//!
//! Only the started state and the start operation are meaningfully
//! backed by this platform: starting a hart sends a wake signal
//! through the inter-hart controller and reports success, with no
//! bookkeeping of the target's previous state. Stopping and querying
//! have no hardware mechanism behind them and always report that they
//! are not supported.

use vstd::prelude::*;
use crate::{SbiRet, SBI_SUCCESS, SBI_ERR_NOT_SUPPORTED};

verus! {

/// Logical lifecycle state of one hart.
#[derive(Clone, Copy, Debug, PartialEq, Eq, Structural)]
pub enum HartState {
    Started,
    Stopped,
    StartPending,
    StopPending,
    Suspended,
    SuspendedPending,
    ResumePending,
}

/// The lifecycle service the call router consults.
#[derive(Clone, Copy, Debug, PartialEq, Eq, Structural)]
pub struct HartStateManager {
    pub hart_state: HartState,
}

impl HartStateManager {
    /// A manager for a hart that is already running.
    pub fn new() -> (m: HartStateManager)
        ensures
            m.hart_state == HartState::Started,
    {
        HartStateManager { hart_state: HartState::Started }
    }

    /// Start a hart: report success and name the hart the platform
    /// must send a wake (software-interrupt) signal to. No check is
    /// made against the target's current state; the start address and
    /// opaque argument travel through boot code, not through here.
    #[allow(unused_variables)]
    pub fn hart_start(&self, hartid: u64, start_addr: u64, opaque: u64) -> (r: (SbiRet, u64))
        ensures
            r.0.error == SBI_SUCCESS,
            r.0.value == 0,
            r.1 == hartid,
    {
        (SbiRet::ok(0), hartid)
    }

    /// Stopping a hart has no hardware mechanism on this platform.
    #[allow(unused_variables)]
    pub fn hart_stop(&self, hartid: u64) -> (r: SbiRet)
        ensures
            r.error == SBI_ERR_NOT_SUPPORTED,
            r.value == 0,
    {
        SbiRet::not_supported()
    }

    /// Querying a hart's state has no hardware mechanism on this
    /// platform.
    #[allow(unused_variables)]
    pub fn hart_get_status(&self, hartid: u64) -> (r: SbiRet)
        ensures
            r.error == SBI_ERR_NOT_SUPPORTED,
            r.value == 0,
    {
        SbiRet::not_supported()
    }
}

} // verus!
