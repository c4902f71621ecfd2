//! Cycle-counter scheduler: gates the periodic work from a free-running
//! monotonic hardware counter, tolerating a single counter wraparound
//! between consecutive reads.
use vstd::prelude::*;

verus! {

/// Assumed core clock rate, in cycles per second, used to translate a
/// wall-time period into raw counter cycles: the 160 MHz system clock
/// selected by the reference configuration.
pub const CORE_CLOCK_HZ: u64 = 160_000_000;

/// Default trigger threshold in raw cycles: the product of a per-second
/// cycle-rate constant (one cycle above [`CORE_CLOCK_HZ`], keeping the
/// period strictly above the nominal two seconds) and the two-second
/// wall-time period.
pub const DEFAULT_PERIOD_CYCLES: u64 = 160_000_001 * 2;

/// Modulus of the 64-bit free-running counter.
pub open spec fn counter_modulus() -> int {
    0x1_0000_0000_0000_0000
}

/// Elapsed cycles from `last` to `current` on a counter that may have
/// rolled over at most once in between: the plain difference when the
/// counter did not wrap, and the distance through the rollover when it
/// did.
pub open spec fn elapsed_cycles(last: u64, current: u64) -> int {
    if current >= last {
        current - last
    } else {
        counter_modulus() - last + current
    }
}

/// On counter pairs that did not wrap (`current >= last` in unwrapped
/// arithmetic), the elapsed count is exactly `current - last`.
pub proof fn lemma_elapsed_unwrapped(last: u64, current: u64)
    requires
        current >= last,
    ensures
        elapsed_cycles(last, current) == current - last,
{
}

/// A single wraparound (`current < last` because the counter rolled over
/// modulo its width) still yields a non-negative elapsed count equal to
/// `(2^64 - last) + current`.
pub proof fn lemma_elapsed_single_wraparound(last: u64, current: u64)
    requires
        current < last,
    ensures
        elapsed_cycles(last, current) == (counter_modulus() - last) + current,
        0 <= elapsed_cycles(last, current) < counter_modulus(),
{
}

/// Triggered is left immediately: once a trigger has reset the trigger
/// point to the current counter value, a second decision at that same
/// value sees zero elapsed cycles and never triggers again.
pub proof fn lemma_triggered_to_waiting_is_immediate(threshold: u64, current: u64)
    ensures
        elapsed_cycles(current, current) == 0,
        !(elapsed_cycles(current, current) > threshold),
{
}

/// Wrapping subtraction `current - last` modulo 2^64: the elapsed-cycle
/// computation that stays correct across a single counter rollover.
pub fn wrapping_elapsed(last: u64, current: u64) -> (e: u64)
    ensures
        e == elapsed_cycles(last, current),
{
    if current >= last {
        current - last
    } else {
        u64::MAX - last + current + 1
    }
}

/// Derives one bounded sample input for the instrumented routine from a
/// raw counter read. The inputs are deterministic functions of successive
/// reads of the same monotonic source the scheduler uses, so a synthetic
/// counter sequence reproduces them exactly.
pub fn sample_input(counter: u64) -> (r: u8)
    ensures
        r == counter % 255,
{
    (counter % 255) as u8
}

/// The scheduler proper: logically either Waiting (elapsed cycles since
/// the last trigger do not exceed the threshold) or, for the one poll that
/// crosses the threshold, Triggered — after which it is immediately
/// Waiting again, with the trigger point moved up. It never terminates or
/// resets; it only gates.
pub struct Scheduler {
    last_trigger: u64,
    threshold: u64,
}

impl Scheduler {
    /// Counter value at which the scheduler last triggered (or started).
    pub closed spec fn spec_last_trigger(self) -> u64 {
        self.last_trigger
    }

    /// Trigger threshold, in raw cycles.
    pub closed spec fn spec_threshold(self) -> u64 {
        self.threshold
    }

    pub fn new(start_count: u64, threshold: u64) -> (s: Scheduler)
        ensures
            s.spec_last_trigger() == start_count,
            s.spec_threshold() == threshold,
    {
        Scheduler { last_trigger: start_count, threshold }
    }

    /// One scheduling decision at counter value `current`: triggers if and
    /// only if the (wraparound-safe) elapsed count strictly exceeds the
    /// threshold, and on a trigger resets the trigger point to `current`
    /// exactly once. A poll that does not trigger changes nothing.
    pub fn poll(&mut self, current: u64) -> (triggered: bool)
        ensures
            triggered == (elapsed_cycles(old(self).spec_last_trigger(), current)
                > old(self).spec_threshold()),
            final(self).spec_threshold() == old(self).spec_threshold(),
            triggered ==> final(self).spec_last_trigger() == current,
            !triggered ==> final(self).spec_last_trigger() == old(self).spec_last_trigger(),
    {
        let elapsed = wrapping_elapsed(self.last_trigger, current);
        if elapsed > self.threshold {
            self.last_trigger = current;
            true
        } else {
            false
        }
    }

    pub fn last_trigger(&self) -> (r: u64)
        ensures
            r == self.spec_last_trigger(),
    {
        self.last_trigger
    }

    pub fn threshold(&self) -> (r: u64)
        ensures
            r == self.spec_threshold(),
    {
        self.threshold
    }
}

} // verus!
