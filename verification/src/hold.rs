//! The adaptive holding duty shared by both contactor channels.
//!
//! While the auxiliary rate-increase sense input is asserted, the holding
//! duty rises by one per control-loop tick.  The rate is clamped to a cap
//! chosen at construction (the actuators' duty ceiling) so the duty-level
//! invariant `duty <= max_duty` can never be broken by adaptive growth.

use vstd::prelude::*;

verus! {

/// Shared holding duty with its clamp.
#[derive(Clone, Copy, PartialEq, Eq, Structural, Debug)]
pub struct HoldRate {
    /// Current holding duty.
    pub rate: u32,
    /// Ceiling the rate may never exceed.
    pub cap: u32,
}

impl HoldRate {
    /// The rate stays within its cap.
    pub open spec fn wf(self) -> bool {
        self.rate <= self.cap
    }

    /// One tick of adaptive growth: while the auxiliary input is asserted the
    /// rate rises by one, stopping at the cap.
    pub open spec fn spec_update(self, aux_asserted: bool) -> HoldRate {
        if aux_asserted && self.rate < self.cap {
            HoldRate { rate: (self.rate + 1) as u32, cap: self.cap }
        } else {
            self
        }
    }

    /// The rate after `n` consecutive ticks with the auxiliary input
    /// asserted throughout.
    pub open spec fn spec_update_n(self, n: nat) -> HoldRate
        decreases n,
    {
        if n == 0 {
            self
        } else {
            self.spec_update_n((n - 1) as nat).spec_update(true)
        }
    }

    /// Builds a hold rate clamped to `cap`.
    pub fn new(initial: u32, cap: u32) -> (h: HoldRate)
        ensures
            h.cap == cap,
            h.rate == if initial <= cap { initial as int } else { cap as int },
            h.wf(),
    {
        HoldRate { rate: if initial <= cap { initial } else { cap }, cap }
    }

    /// Polls the auxiliary rate-increase input for one tick.
    pub fn update(&mut self, aux_asserted: bool)
        requires
            old(self).wf(),
        ensures
            *final(self) == old(self).spec_update(aux_asserted),
            final(self).wf(),
    {
        if aux_asserted && self.rate < self.cap {
            self.rate = self.rate + 1;
        }
    }
}

/// The hold rate never decreases, whatever the auxiliary input does.
pub proof fn lemma_update_monotonic(h: HoldRate, aux_asserted: bool)
    ensures
        h.spec_update(aux_asserted).rate >= h.rate,
        h.spec_update(aux_asserted).cap == h.cap,
{
}

/// Asserting the auxiliary input for `n` ticks raises the rate by exactly
/// `n`, saturating at the cap.
pub proof fn lemma_rate_after_n_ticks(h: HoldRate, n: nat)
    requires
        h.wf(),
    ensures
        h.spec_update_n(n).cap == h.cap,
        h.spec_update_n(n).rate == if h.rate + n <= h.cap {
            h.rate + n
        } else {
            h.cap as int
        },
    decreases n,
{
    if n > 0 {
        lemma_rate_after_n_ticks(h, (n - 1) as nat);
    }
}

} // verus!
