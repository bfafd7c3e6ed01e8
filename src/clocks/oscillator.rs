//! Oscillator configuration.
use vstd::prelude::*;

verus! {

/// Lowest supported oscillator frequency, in MHz.
pub const OSCILLATOR_MIN_MHZ: u8 = 16;

/// Highest supported oscillator frequency, in MHz.
pub const OSCILLATOR_MAX_MHZ: u8 = 40;

/// Configuration of the external oscillator, stored as the OSCVAL register
/// value (frequency in MHz minus 15).
pub struct Oscillator {
    oscval: u8,
}

impl Oscillator {
    #[verifier::type_invariant]
    closed spec fn inv(self) -> bool {
        1 <= self.oscval <= 25
    }

    /// The OSCVAL register value.
    pub closed spec fn spec_oscval(&self) -> u8 {
        self.oscval
    }

    /// An oscillator of `frequency_mhz` MHz, between 16 and 40.
    pub fn new(frequency_mhz: u8) -> (r: Oscillator)
        requires
            OSCILLATOR_MIN_MHZ <= frequency_mhz <= OSCILLATOR_MAX_MHZ,
        ensures
            r.spec_oscval() == frequency_mhz - 15,
    {
        Oscillator { oscval: frequency_mhz - 15 }
    }

    /// The OSCVAL register value.
    pub fn oscval(&self) -> (r: u8)
        ensures
            r == self.spec_oscval(),
    {
        self.oscval
    }

    /// The oscillator speed in MHz.
    pub fn oscillator_speed(&self) -> (r: u8)
        ensures
            r == self.spec_oscval() + 15,
            OSCILLATOR_MIN_MHZ <= r <= OSCILLATOR_MAX_MHZ,
    {
        proof {
            use_type_invariant(self);
        }
        self.oscval + 15
    }
}

} // verus!
