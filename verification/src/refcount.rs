//! The shared counter that gates the DMA block's clock lines: acquiring turns
//! the clocks on, and the last release turns them off again.

use vstd::prelude::*;

verus! {

/// Process-wide counter guarding the DMA block's two clock lines, together
/// with the modeled state of those lines. The platform's clock controller is
/// commanded through the booleans the operations return.
pub struct ResourceRefcount {
    /// How many holders have acquired and not yet released.
    pub count: usize,
    /// Whether the block's clock lines are running.
    pub clock_enabled: bool,
}

impl ResourceRefcount {
    /// The clock runs exactly while the count is positive.
    pub open spec fn wf(self) -> bool {
        self.clock_enabled <==> self.count > 0
    }

    /// A fresh counter: no holders, clocks off.
    pub fn new() -> (r: ResourceRefcount)
        ensures
            r.wf(),
            r.count == 0,
            !r.clock_enabled,
    {
        ResourceRefcount { count: 0, clock_enabled: false }
    }

    /// Increments the count; when the pre-increment value was zero, the
    /// clocks come on. Returns whether the caller must enable the hardware
    /// clock lines now.
    pub fn acquire(&mut self) -> (enable_now: bool)
        requires
            old(self).wf(),
            old(self).count < usize::MAX,
        ensures
            final(self).wf(),
            final(self).count == old(self).count + 1,
            final(self).clock_enabled,
            enable_now == (old(self).count == 0),
    {
        let was_zero = self.count == 0;
        if was_zero {
            self.clock_enabled = true;
        }
        self.count = self.count + 1;
        was_zero
    }

    /// Decrements the count; when the post-decrement value is zero, the
    /// clocks go off. Returns whether the caller must disable the hardware
    /// clock lines now. Underflow is a fatal kernel bug, so a positive count
    /// is required of every caller.
    pub fn release(&mut self) -> (disable_now: bool)
        requires
            old(self).wf(),
            old(self).count > 0,
        ensures
            final(self).wf(),
            final(self).count == old(self).count - 1,
            final(self).clock_enabled == (old(self).count > 1),
            disable_now == (old(self).count == 1),
    {
        self.count = self.count - 1;
        let now_zero = self.count == 0;
        if now_zero {
            self.clock_enabled = false;
        }
        now_zero
    }
}

} // verus!
