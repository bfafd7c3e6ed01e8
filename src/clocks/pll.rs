//! PLL divider configurations. Registers hold each divider minus one.
use vstd::prelude::*;

verus! {

/// System PLL configuration, as register values.
pub struct SysPllConfig {
    /// P-divider.
    pub p: u8,
    /// N-divider.
    pub n: u8,
    /// K2-divider.
    pub k2: u8,
}

impl SysPllConfig {
    /// The default configuration: P 0, N 29, K2 1.
    pub fn new() -> (r: Self)
        ensures
            r.p == 0,
            r.n == 29,
            r.k2 == 1,
    {
        SysPllConfig { p: 0, n: 29, k2: 1 }
    }

    /// Slowest K2 divider register value: the field has three bits.
    pub fn k2_max() -> (r: u8)
        ensures
            r == 0b111,
    {
        0b111
    }

    /// The actual P divider, not the register value.
    pub fn effective_p(&self) -> (r: u8)
        requires
            self.p < 255,
        ensures
            r == self.p + 1,
    {
        self.p + 1
    }

    /// The actual N divider, not the register value.
    pub fn effective_n(&self) -> (r: u8)
        requires
            self.n < 255,
        ensures
            r == self.n + 1,
    {
        self.n + 1
    }

    /// The actual K2 divider, not the register value.
    pub fn effective_k2(&self) -> (r: u8)
        requires
            self.k2 < 255,
        ensures
            r == self.k2 + 1,
    {
        self.k2 + 1
    }

    /// The K2 register values to write, in order, when the system clock is
    /// sped up from the slowest divider to the configured one: one step at a
    /// time, from `k2_max() - 1` down to `k2`; none if `k2` is at least the
    /// slowest divider.
    pub fn throttle_steps(&self) -> (r: Vec<u8>)
        ensures
            self.k2 < 0b111 ==> r@.len() == 0b111 - self.k2,
            self.k2 >= 0b111 ==> r@.len() == 0,
            forall|i: int| 0 <= i < r@.len() ==> r@[i] == 0b111 - 1 - i,
    {
        let mut steps: Vec<u8> = Vec::new();
        let mut step: u8 = Self::k2_max();
        while step > self.k2
            invariant
                step <= 0b111,
                self.k2 <= step || step == 0b111,
                steps@.len() == 0b111 - step,
                forall|i: int| 0 <= i < steps@.len() ==> steps@[i] == 0b111 - 1 - i,
            decreases step,
        {
            step -= 1;
            steps.push(step);
        }
        steps
    }
}

/// Peripheral PLL configuration, as register values.
pub struct PeripheralPllConfig {
    /// P-divider.
    pub p: u8,
    /// N-divider.
    pub n: u8,
    /// Whether the K3 pre-divider is bypassed.
    pub k_bypass: bool,
    /// K2-divider.
    pub k2: u8,
    /// K3-divider.
    pub k3: u8,
}

impl PeripheralPllConfig {
    /// The default configuration: P 0, N 31, no bypass, K2 1, K3 1.
    pub fn new() -> (r: Self)
        ensures
            r.p == 0,
            r.n == 31,
            !r.k_bypass,
            r.k2 == 1,
            r.k3 == 1,
    {
        PeripheralPllConfig { p: 0, n: 31, k_bypass: false, k2: 1, k3: 1 }
    }

    /// The actual P divider, not the register value.
    pub fn effective_p(&self) -> (r: u8)
        requires
            self.p < 255,
        ensures
            r == self.p + 1,
    {
        self.p + 1
    }

    /// The actual N divider, not the register value.
    pub fn effective_n(&self) -> (r: u8)
        requires
            self.n < 255,
        ensures
            r == self.n + 1,
    {
        self.n + 1
    }

    /// The actual K2 divider, not the register value.
    pub fn effective_k2(&self) -> (r: u8)
        requires
            self.k2 < 255,
        ensures
            r == self.k2 + 1,
    {
        self.k2 + 1
    }

    /// The actual K3 divider, not the register value.
    pub fn effective_k3(&self) -> (r: u8)
        requires
            self.k3 < 255,
        ensures
            r == self.k3 + 1,
    {
        self.k3 + 1
    }
}

} // verus!
