//! Cooperative countdown timers for the jump and dash states.

use vstd::prelude::*;

verus! {

/// An elapsed-time accumulator, counted in milliseconds. It only ever
/// advances by the tick delta or resets to zero, and it saturates instead
/// of overflowing when ticked near the top of its range.
#[derive(Clone, Copy, Debug, PartialEq, Eq, Structural)]
pub struct Stopwatch {
    pub elapsed_ms: u64,
}

impl Stopwatch {
    /// A stopwatch that has not run yet.
    pub fn new() -> (s: Stopwatch)
        ensures
            s == (Stopwatch { elapsed_ms: 0 }),
    {
        Stopwatch { elapsed_ms: 0 }
    }

    /// Advance by one tick delta, saturating rather than overflowing.
    pub fn tick(&mut self, delta_ms: u64)
        ensures
            final(self).elapsed_ms == old(self).elapsed_ms.saturating_add(delta_ms),
    {
        self.elapsed_ms = self.elapsed_ms.saturating_add(delta_ms);
    }

    /// Reset to exactly zero.
    pub fn reset(&mut self)
        ensures
            final(self).elapsed_ms == 0,
    {
        self.elapsed_ms = 0;
    }
}

/// The timer that gates jump expiry.
#[derive(Clone, Copy, Debug, PartialEq, Eq, Structural)]
pub struct JumpTimer {
    pub jump_expire: Stopwatch,
}

impl Default for JumpTimer {
    fn default() -> (t: JumpTimer)
        ensures
            t.jump_expire.elapsed_ms == 0,
    {
        JumpTimer { jump_expire: Stopwatch::new() }
    }
}

/// The timer that gates dash expiry.
#[derive(Clone, Copy, Debug, PartialEq, Eq, Structural)]
pub struct DashTimer {
    pub dash_expire: Stopwatch,
}

impl Default for DashTimer {
    fn default() -> (t: DashTimer)
        ensures
            t.dash_expire.elapsed_ms == 0,
    {
        DashTimer { dash_expire: Stopwatch::new() }
    }
}

} // verus!
