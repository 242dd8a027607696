//! The service's rate-limit counters and the cool-down they trigger.

use vstd::prelude::*;

verus! {

/// Short-window calls a fresh client assumes it may still make.
pub const INITIAL_SHORT: u64 = 4;

/// Long-window calls a fresh client assumes it may still make.
pub const INITIAL_LONG: u64 = 100;

/// Floor of the short counter in normal operation: wait only once it is used up.
pub const NORMAL_FLOOR: u64 = 0;

/// Floor of the short counter in slow mode, which makes the wait easy to provoke.
pub const SLOW_FLOOR: u64 = 3;

/// Length of one cool-down in milliseconds: the service's thirty second short
/// window and one second of margin.
pub const COOLDOWN_MILLIS: u64 = 31_000;

/// Number of equal steps a cool-down is reported in.
pub const COOLDOWN_STEPS: u32 = 100;

/// The short-counter floor in force for the given mode.
pub open spec fn floor_for(slow: bool) -> u64 {
    if slow {
        SLOW_FLOOR
    } else {
        NORMAL_FLOOR
    }
}

/// Remaining calls in the service's short and long rate-limit windows.
#[derive(Clone, Copy, Debug, PartialEq, Eq, Structural)]
pub struct Quota {
    pub short_remaining: u64,
    pub long_remaining: u64,
}

impl Quota {
    /// The short counter is at or below the floor: a call must wait first.
    pub open spec fn throttled(self, slow: bool) -> bool {
        self.short_remaining <= floor_for(slow)
    }

    /// The long counter is used up, which no wait within a run restores.
    pub open spec fn exhausted(self) -> bool {
        self.long_remaining == 0
    }

    /// The quota a client starts with, before any response has been seen.
    pub fn initial() -> (q: Quota)
        ensures
            q.short_remaining == INITIAL_SHORT,
            q.long_remaining == INITIAL_LONG,
    {
        Quota { short_remaining: INITIAL_SHORT, long_remaining: INITIAL_LONG }
    }

    /// Whether the next call has to be preceded by a cool-down.
    pub fn needs_cooldown(&self, slow: bool) -> (wait: bool)
        ensures
            wait == self.throttled(slow),
    {
        if slow {
            self.short_remaining <= SLOW_FLOOR
        } else {
            self.short_remaining <= NORMAL_FLOOR
        }
    }

    /// Whether the long window is used up.
    pub fn is_exhausted(&self) -> (done: bool)
        ensures
            done == self.exhausted(),
    {
        self.long_remaining == 0
    }
}

/// How a cool-down is carried out: `steps` pauses of `step_millis` each.
#[derive(Clone, Copy, Debug, PartialEq, Eq, Structural)]
pub struct CooldownPlan {
    pub steps: u32,
    pub step_millis: u64,
}

impl CooldownPlan {
    /// Total length of the wait in milliseconds.
    pub open spec fn total_millis(self) -> int {
        self.steps * self.step_millis
    }

    /// Splits a wait of `millis` into `steps` equal pauses, rounding each down.
    pub fn split(millis: u64, steps: u32) -> (plan: CooldownPlan)
        requires
            steps > 0,
        ensures
            plan.steps == steps,
            plan.step_millis == millis / (steps as u64),
    {
        CooldownPlan { steps, step_millis: millis / (steps as u64) }
    }

    /// The wait used whenever the short counter is at or below its floor.
    pub fn standard() -> (plan: CooldownPlan)
        ensures
            plan == standard_cooldown(),
    {
        CooldownPlan::split(COOLDOWN_MILLIS, COOLDOWN_STEPS)
    }
}

/// The standard cool-down: one hundred pauses of 310 ms, 31 s in all.
pub open spec fn standard_cooldown() -> CooldownPlan {
    CooldownPlan { steps: 100, step_millis: 310 }
}

} // verus!
