//! Driver pieces for the AURIX TC37x: a CAN node driver whose configuration,
//! message-RAM layout, frame encoding and exchange protocols are verified, plus
//! the clock configuration values the driver builds on.
use vstd::prelude::*;

pub mod can;
pub mod clocks;
pub mod frequency;
pub mod time;
