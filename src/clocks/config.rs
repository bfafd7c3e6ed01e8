//! The complete clock configuration.
use vstd::prelude::*;

use crate::clocks::oscillator::Oscillator;
use crate::clocks::pll::{PeripheralPllConfig, SysPllConfig};

verus! {

/// All clock configurations the clock setup needs.
pub struct Clocks {
    /// The external oscillator.
    pub oscillator: Oscillator,
    /// The system PLL.
    pub system: SysPllConfig,
    /// The peripheral PLL.
    pub peripheral: PeripheralPllConfig,
}

impl Clocks {
    /// The configuration for `oscillator_config`, with the default PLL settings.
    pub fn new(oscillator_config: Oscillator) -> (r: Self)
        ensures
            r.oscillator == oscillator_config,
            r.system.p == 0 && r.system.n == 29 && r.system.k2 == 1,
            r.peripheral.p == 0 && r.peripheral.n == 31 && !r.peripheral.k_bypass
                && r.peripheral.k2 == 1 && r.peripheral.k3 == 1,
    {
        Clocks {
            oscillator: oscillator_config,
            system: SysPllConfig::new(),
            peripheral: PeripheralPllConfig::new(),
        }
    }
}

/// Implemented by the peripherals that can configure the clocks.
pub trait SetupClocks {
    /// Bring up the clocks as `clocks` describes.
    fn setup(&self, clocks: Clocks) -> Result<(), ()>;
}

} // verus!
