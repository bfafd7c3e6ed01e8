//! Frequencies in hertz.
use vstd::prelude::*;

verus! {

/// A frequency, in Hz.
pub struct Frequency {
    hz: u32,
}

impl Frequency {
    /// The frequency in Hz.
    pub closed spec fn spec_hz(&self) -> nat {
        self.hz as nat
    }

    /// A frequency of `frequency` Hz.
    pub fn hz(frequency: u32) -> (r: Frequency)
        ensures
            r.spec_hz() == frequency,
    {
        Frequency { hz: frequency }
    }

    /// The frequency in Hz.
    pub fn as_hz(&self) -> (r: u32)
        ensures
            r == self.spec_hz(),
    {
        self.hz
    }
}

/// Reading a number as a frequency.
pub trait FreqExt {
    /// The number.
    spec fn spec_value(&self) -> nat;

    /// The number as MHz.
    fn mhz(&self) -> (r: Frequency)
        requires
            self.spec_value() * 1_000_000 <= u32::MAX,
        ensures
            r.spec_hz() == self.spec_value() * 1_000_000,
    ;

    /// The number as kHz.
    fn khz(&self) -> (r: Frequency)
        requires
            self.spec_value() * 1_000 <= u32::MAX,
        ensures
            r.spec_hz() == self.spec_value() * 1_000,
    ;

    /// The number as Hz.
    fn hz(&self) -> (r: Frequency)
        requires
            self.spec_value() <= u32::MAX,
        ensures
            r.spec_hz() == self.spec_value(),
    ;
}

impl FreqExt for u32 {
    open spec fn spec_value(&self) -> nat {
        *self as nat
    }

    fn mhz(&self) -> (r: Frequency) {
        Frequency { hz: *self * 1_000_000 }
    }

    fn khz(&self) -> (r: Frequency) {
        Frequency { hz: *self * 1_000 }
    }

    fn hz(&self) -> (r: Frequency) {
        Frequency { hz: *self }
    }
}

} // verus!
