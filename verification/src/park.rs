//! Park/wake synchronization for secondary harts at boot.
//!
//! The primary hart (logical id 0) performs the one-time global setup
//! while every other hart parks: it clears its own software-interrupt-
//! pending bit, enables only that interrupt source, then waits for an
//! event and re-checks the pending bit until it is observed set; it
//! then disables the source and clears the bit again before
//! proceeding. A hart therefore cannot race the primary's setup, and a
//! stale or spurious wake signal cannot leave the bit set to falsely
//! wake it a second time.
//!
//! `HartPark` models one parked hart together with its own pending
//! bit: `park` stands for the initial clear-and-listen, `wake` for
//! another hart's wake signal, `poll` for one wait-for-event followed
//! by a read of the pending bit, and `complete` for the final
//! disarm-and-clear. The platform loop performs the real register
//! operations alongside the matching transitions.

use vstd::prelude::*;

verus! {

/// Where a parked hart stands in the park/wake protocol.
#[derive(Clone, Copy, Debug, PartialEq, Eq, Structural)]
pub enum ParkPhase {
    /// Waiting for its software-interrupt-pending bit to be set.
    Parked,
    /// Observed the pending bit set; about to disarm and proceed.
    Woken,
    /// Disarmed, bit cleared, released into normal execution.
    Proceeded,
}

/// One parked hart and its software-interrupt-pending bit.
#[derive(Clone, Copy, Debug, PartialEq, Eq, Structural)]
pub struct HartPark {
    pub phase: ParkPhase,
    pub soft_pending: bool,
}

/// Whether hart `hartid` is the primary hart, which performs global
/// setup instead of parking.
pub fn is_primary_hart(hartid: u64) -> (r: bool)
    ensures
        r == (hartid == 0),
{
    hartid == 0
}

impl HartPark {
    /// Enter the parked state: the hart clears its own pending bit and
    /// starts listening. A wake signal sent before this point is
    /// discarded by the clear.
    pub fn park() -> (s: HartPark)
        ensures
            s.phase == ParkPhase::Parked,
            !s.soft_pending,
    {
        HartPark { phase: ParkPhase::Parked, soft_pending: false }
    }

    /// A wake signal from another hart: the pending bit becomes set,
    /// whatever the hart is doing.
    pub fn wake(&mut self)
        ensures
            final(self).soft_pending,
            final(self).phase == old(self).phase,
    {
        self.soft_pending = true;
    }

    /// One wait-for-event followed by a read of the pending bit. The
    /// hart resumes exactly when the bit is observed set; otherwise it
    /// stays parked and waits again.
    pub fn poll(&mut self) -> (resume: bool)
        requires
            old(self).phase == ParkPhase::Parked,
        ensures
            resume == old(self).soft_pending,
            final(self).soft_pending == old(self).soft_pending,
            final(self).phase == (if old(self).soft_pending { ParkPhase::Woken } else {
                ParkPhase::Parked
            }),
    {
        if self.soft_pending {
            self.phase = ParkPhase::Woken;
            true
        } else {
            false
        }
    }

    /// Disarm the source and clear the pending bit, then proceed: the
    /// wake that released this hart cannot release it again.
    pub fn complete(&mut self)
        requires
            old(self).phase == ParkPhase::Woken,
        ensures
            final(self).phase == ParkPhase::Proceeded,
            !final(self).soft_pending,
    {
        self.phase = ParkPhase::Proceeded;
        self.soft_pending = false;
    }
}

/// One poll transition at spec level: a parked hart that observes the
/// pending bit set wakes; nothing else moves it.
pub open spec fn park_poll_step(phase: ParkPhase, pending: bool) -> ParkPhase {
    if phase == ParkPhase::Parked && pending { ParkPhase::Woken } else { phase }
}

/// The phase a hart that parked and then made the observations `obs`,
/// one per wait-for-event, has reached.
pub open spec fn park_run(obs: Seq<bool>) -> ParkPhase
    decreases obs.len(),
{
    if obs.len() == 0 {
        ParkPhase::Parked
    } else {
        park_poll_step(park_run(obs.drop_last()), obs.last())
    }
}

/// Polling alone only ever parks or wakes a hart.
pub proof fn lemma_park_run_cases(obs: Seq<bool>)
    ensures
        park_run(obs) == ParkPhase::Parked || park_run(obs) == ParkPhase::Woken,
    decreases obs.len(),
{
    if obs.len() > 0 {
        lemma_park_run_cases(obs.drop_last());
    }
}

/// A parked hart resumes exactly when its software-interrupt-pending
/// bit was observed set at least once: no sequence of observations
/// that never sees the bit releases it, and any sequence that sees the
/// bit does.
pub proof fn lemma_park_resumes_iff_wake_observed(obs: Seq<bool>)
    ensures
        park_run(obs) == ParkPhase::Woken <==> exists|i: int| 0 <= i < obs.len() && obs[i],
    decreases obs.len(),
{
    lemma_park_run_cases(obs);
    if obs.len() > 0 {
        let prefix = obs.drop_last();
        lemma_park_run_cases(prefix);
        lemma_park_resumes_iff_wake_observed(prefix);
        if park_run(obs) == ParkPhase::Woken {
            if park_run(prefix) == ParkPhase::Woken {
                let i = choose|i: int| 0 <= i < prefix.len() && prefix[i];
                assert(obs[i]);
            } else {
                assert(obs[obs.len() - 1]);
            }
        }
        if exists|i: int| 0 <= i < obs.len() && obs[i] {
            let i = choose|i: int| 0 <= i < obs.len() && obs[i];
            if i < obs.len() - 1 {
                assert(prefix[i]);
            }
        }
    }
}

/// A stale bit cannot double-wake: after the final clear, a hart that
/// parks again and is never signalled observes only a clear bit and
/// stays parked.
pub proof fn lemma_no_resume_without_wake(obs: Seq<bool>)
    requires
        forall|i: int| 0 <= i < obs.len() ==> !obs[i],
    ensures
        park_run(obs) == ParkPhase::Parked,
{
    lemma_park_run_cases(obs);
    lemma_park_resumes_iff_wake_observed(obs);
}

} // verus!
