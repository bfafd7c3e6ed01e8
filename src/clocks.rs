//! Clock configuration values: oscillator, system and peripheral PLL.
use vstd::prelude::*;

pub mod config;
pub mod oscillator;
pub mod pll;
