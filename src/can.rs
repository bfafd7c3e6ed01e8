//! CAN module: message RAM, frame layout, bit timing and node life cycle.
use vstd::prelude::*;

pub mod can0;
pub mod connection;
pub mod error;
pub mod module_ram;
pub mod node;
pub mod receive;
pub mod transceive;
pub mod rx;
pub mod tx;
pub mod timing;

verus! {

/// A CAN module (CAN0, CAN1, ...) described by the location and size of its
/// message RAM.
pub trait CanModuleRAM {
    /// Address of the RAM.
    spec fn spec_ram_location() -> usize;

    /// Size of the RAM, in bytes.
    spec fn spec_ram_size() -> usize;

    /// The message RAM is addressed through 16-bit byte offsets.
    proof fn lemma_ram_size_bound()
        ensures
            Self::spec_ram_size() <= 0x1_0000,
    ;

    /// Address of the RAM.
    fn ram_location() -> (r: usize)
        ensures
            r == Self::spec_ram_location(),
    ;

    /// Size of the RAM, in bytes.
    fn ram_size() -> (r: usize)
        ensures
            r == Self::spec_ram_size(),
    ;
}

/// Marker for a CAN peripheral.
pub trait CanModule {
    /// Associated RAM module.
    type RAM: CanModuleRAM;
}

/// Type-aware wrapper around a CAN identifier.
#[derive(PartialEq, Eq, Structural, Clone, Copy, Debug)]
pub enum CanID {
    /// A standard (11-bit) identifier.
    Standard(u16),
    /// An extended (29-bit) identifier.
    Extended(u32),
}

/// Largest standard identifier.
pub const STANDARD_ID_MAX: u16 = 0x7FF;

/// Largest extended identifier.
pub const EXTENDED_ID_MAX: u32 = 0x1FFF_FFFF;

impl CanID {
    /// The identifier fits its form: 11 bits for a standard, 29 for an extended one.
    pub open spec fn in_range(self) -> bool {
        match self {
            CanID::Standard(id) => id <= STANDARD_ID_MAX,
            CanID::Extended(id) => id <= EXTENDED_ID_MAX,
        }
    }
}

/// The ways in which the driver refuses a request.
#[derive(PartialEq, Eq, Structural, Clone, Copy, Debug)]
pub enum CanError {
    /// The message RAM cannot hold the requested buffer.
    OutOfMemory,
    /// A payload longer than the frame buffer.
    PayloadTooLarge,
    /// A bus speed without a timing entry.
    UnsupportedBitrate,
    /// The hardware reported a value outside the configured buffer.
    ConfigurationInvariantViolated,
}

} // verus!
