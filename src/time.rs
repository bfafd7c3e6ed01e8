//! Instants measured from boot.
use vstd::prelude::*;

verus! {

/// Frequency of the system timer, in Hz.
pub const STM0_FREQUENCY_HZ: u64 = 100_000_000;

/// A point in time, in milliseconds since boot.
#[derive(PartialEq, Eq, Structural, PartialOrd, Ord, Clone, Copy, Debug)]
pub struct Instant {
    time_since_boot_ms: u64,
}

impl Instant {
    /// Milliseconds since boot.
    pub closed spec fn spec_millis(&self) -> nat {
        self.time_since_boot_ms as nat
    }

    /// The instant for a reading of the system timer's TIM4 register, which
    /// counts ticks of the 100 MHz timer divided by 2^16.
    pub fn from_tim4(ticks: u32) -> (r: Instant)
        ensures
            r.spec_millis() == ticks * 1_000 * 0x1_0000 / STM0_FREQUENCY_HZ as int,
    {
        let t = ticks as u64;
        assert(t * 1_000 * 0x1_0000 <= u64::MAX) by (nonlinear_arith)
            requires
                t <= u32::MAX,
        ;
        Instant { time_since_boot_ms: t * 1_000 * 0x1_0000 / STM0_FREQUENCY_HZ }
    }

    /// An instant `millis` milliseconds since boot.
    pub fn from_millis(millis: u64) -> (r: Instant)
        ensures
            r.spec_millis() == millis,
    {
        Instant { time_since_boot_ms: millis }
    }

    /// Milliseconds since boot.
    pub fn millis(&self) -> (r: u64)
        ensures
            r == self.spec_millis(),
    {
        self.time_since_boot_ms
    }

    /// The instant `millis` milliseconds later.
    pub fn add_millis(&self, millis: u64) -> (r: Instant)
        requires
            self.spec_millis() + millis <= u64::MAX,
        ensures
            r.spec_millis() == self.spec_millis() + millis,
    {
        Instant { time_since_boot_ms: self.time_since_boot_ms + millis }
    }

    /// Milliseconds from `earlier` to this instant.
    pub fn millis_since(&self, earlier: &Instant) -> (r: u64)
        requires
            earlier.spec_millis() <= self.spec_millis(),
        ensures
            r == self.spec_millis() - earlier.spec_millis(),
    {
        self.time_since_boot_ms - earlier.time_since_boot_ms
    }
}

/// Microseconds per millisecond.
pub const MICROS_PER_MILLI: u32 = 1_000;

/// Microseconds per second.
pub const MICROS_PER_SECOND: u32 = 1_000_000;

/// Timer ticks that make up `us` microseconds for a timer counting
/// `frequency` ticks per second: whole ticks per microsecond times `us`.
pub fn ticks_for_micros(frequency: u32, us: u32) -> (r: u32)
    requires
        us * (frequency / MICROS_PER_SECOND) <= u32::MAX,
    ensures
        r == us * (frequency / MICROS_PER_SECOND),
{
    us * (frequency / MICROS_PER_SECOND)
}

/// Microseconds in `ms` milliseconds.
pub fn micros_for_millis(ms: u32) -> (r: u32)
    requires
        ms * MICROS_PER_MILLI <= u32::MAX,
    ensures
        r == ms * MICROS_PER_MILLI,
{
    ms * MICROS_PER_MILLI
}

/// Whether a delay of `ticks` that started at counter value `start` is over at
/// counter value `now`; the 32-bit counter may have wrapped in between.
pub fn delay_elapsed(start: u32, now: u32, ticks: u32) -> (r: bool)
    ensures
        r == ((now - start) % 0x1_0000_0000 >= ticks),
{
    let elapsed = now.wrapping_sub(start);
    elapsed >= ticks
}

} // verus!
