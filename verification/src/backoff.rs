//! Capped exponential backoff for the reconnecting protocol clients.
//!
//! A backoff starts at a fixed base delay, doubles on every failed attempt up
//! to a fixed ceiling, and resets to the base delay on success.

use vstd::prelude::*;

verus! {

/// Delay handed out for the `n`-th consecutive failure (counting from 0)
/// after a reset: the base delay doubled `n` times, capped at the ceiling.
pub open spec fn nth_backoff_delay(base: int, ceiling: int, n: nat) -> int
    decreases n,
{
    if n == 0 {
        base
    } else if 2 * nth_backoff_delay(base, ceiling, (n - 1) as nat) <= ceiling {
        2 * nth_backoff_delay(base, ceiling, (n - 1) as nat)
    } else {
        ceiling
    }
}

/// `1` doubled `n` times.
pub open spec fn pow2_nat(n: nat) -> int
    decreases n,
{
    if n == 0 {
        1
    } else {
        2 * pow2_nat((n - 1) as nat)
    }
}

/// Law: after `n` consecutive failures without a success, the delay handed
/// out is `base * 2^n`, capped at the ceiling.
pub proof fn lemma_backoff_delay_closed_form(base: int, ceiling: int, n: nat)
    requires
        1 <= base <= ceiling,
    ensures
        nth_backoff_delay(base, ceiling, n) == if base * pow2_nat(n) <= ceiling {
            base * pow2_nat(n)
        } else {
            ceiling
        },
    decreases n,
{
    if n > 0 {
        let m = (n - 1) as nat;
        lemma_backoff_delay_closed_form(base, ceiling, m);
        lemma_pow2_nat_positive(m);
        assert(base * pow2_nat(n) == 2 * (base * pow2_nat(m))) by (nonlinear_arith)
            requires pow2_nat(n) == 2 * pow2_nat(m);
        if base * pow2_nat(m) > ceiling {
            assert(base * pow2_nat(n) >= base * pow2_nat(m)) by (nonlinear_arith)
                requires base >= 1, pow2_nat(m) >= 1, pow2_nat(n) == 2 * pow2_nat(m);
        }
    }
}

pub proof fn lemma_pow2_nat_positive(n: nat)
    ensures
        pow2_nat(n) >= 1,
    decreases n,
{
    if n > 0 {
        lemma_pow2_nat_positive((n - 1) as nat);
    }
}

/// Capped exponential backoff state for one reconnecting client.
pub struct Backoff {
    base_ms: u64,
    ceiling_ms: u64,
    current_ms: u64,
}

impl Backoff {
    /// The delay state is sane: base and ceiling are fixed bounds and the
    /// pending delay always lies between them.
    pub closed spec fn wf(&self) -> bool {
        &&& 1 <= self.base_ms <= self.ceiling_ms
        &&& self.base_ms <= self.current_ms <= self.ceiling_ms
    }

    pub closed spec fn base(&self) -> int {
        self.base_ms as int
    }

    pub closed spec fn ceiling(&self) -> int {
        self.ceiling_ms as int
    }

    /// The delay that the next failure will be handed.
    pub closed spec fn pending(&self) -> int {
        self.current_ms as int
    }

    pub fn new(base_ms: u64, ceiling_ms: u64) -> (r: Backoff)
        requires
            1 <= base_ms <= ceiling_ms,
        ensures
            r.wf(),
            r.base() == base_ms,
            r.ceiling() == ceiling_ms,
            r.pending() == base_ms,
    {
        Backoff { base_ms, ceiling_ms, current_ms: base_ms }
    }

    /// A connection attempt failed: hand out the pending delay and double it
    /// for the next failure, capped at the ceiling.
    pub fn on_failure(&mut self) -> (delay_ms: u64)
        requires
            old(self).wf(),
        ensures
            final(self).wf(),
            final(self).base() == old(self).base(),
            final(self).ceiling() == old(self).ceiling(),
            delay_ms == old(self).pending(),
            final(self).pending() == if 2 * old(self).pending() <= old(self).ceiling() {
                2 * old(self).pending()
            } else {
                old(self).ceiling()
            },
    {
        let delay = self.current_ms;
        if self.current_ms <= self.ceiling_ms / 2 {
            self.current_ms = self.current_ms * 2;
        } else {
            self.current_ms = self.ceiling_ms;
        }
        delay
    }

    /// A subscribe succeeded: the next failure starts over at the base delay.
    pub fn on_success(&mut self)
        requires
            old(self).wf(),
        ensures
            final(self).wf(),
            final(self).base() == old(self).base(),
            final(self).ceiling() == old(self).ceiling(),
            final(self).pending() == old(self).base(),
    {
        self.current_ms = self.base_ms;
    }
}

} // verus!
