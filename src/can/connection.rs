//! Connection states of a node: attached to a pin pair, to the internal
//! loopback bus, or both. A node only runs once something is attached.
use vstd::prelude::*;

use core::marker::PhantomData;

verus! {

/// A pin pair that can serve as receive/transmit pins of a node.
///
/// The board layer implements this; the port setup itself happens outside the
/// driver logic, which only needs the receive-pin selection code.
pub trait CanPin: Clone {
    /// Receive-pin selection code of this pin pair.
    spec fn spec_rxsel(&self) -> u8;

    /// Receive-pin selection code (NPCR.RXSEL) of this pin pair.
    fn rxsel(&self) -> (r: u8)
        ensures
            r == self.spec_rxsel(),
    ;
}

/// Pins of node 0.
#[derive(Default, Clone, Copy, PartialEq, Eq, Structural, Debug)]
pub enum Node0Pin {
    /// Receive port P20.7, transmit port P20.8.
    #[default]
    Rxdb,
}

impl CanPin for Node0Pin {
    open spec fn spec_rxsel(&self) -> u8 {
        match self {
            Node0Pin::Rxdb => 0b001,
        }
    }

    fn rxsel(&self) -> (r: u8) {
        match self {
            Node0Pin::Rxdb => 0b001,
        }
    }
}

/// Pins of node 1.
#[derive(Default, Clone, Copy, PartialEq, Eq, Structural, Debug)]
pub enum Node1Pin {
    /// Receive port P15.3, transmit port P15.2.
    #[default]
    Rxda,
}

impl CanPin for Node1Pin {
    open spec fn spec_rxsel(&self) -> u8 {
        match self {
            Node1Pin::Rxda => 0,
        }
    }

    fn rxsel(&self) -> (r: u8) {
        match self {
            Node1Pin::Rxda => 0,
        }
    }
}

/// Whether a pin pair is attached.
pub trait PinState {
    /// A pin pair is attached.
    spec fn is_connected() -> bool;
}

/// Whether the internal loopback bus is attached.
pub trait BusState {
    /// The loopback bus is attached.
    spec fn is_connected() -> bool;
}

/// The pins `P` are attached.
pub struct PinConnected<P: CanPin> {
    marker: PhantomData<P>,
}

/// The pins `P` are not attached yet.
pub struct PinDisconnected<P: CanPin> {
    marker: PhantomData<P>,
}

/// The internal loopback bus is attached.
pub struct InternalBusConnected;

/// The internal loopback bus is not attached.
pub struct InternalBusDisconnected;

impl<P: CanPin> PinState for PinConnected<P> {
    open spec fn is_connected() -> bool {
        true
    }
}

impl<P: CanPin> PinState for PinDisconnected<P> {
    open spec fn is_connected() -> bool {
        false
    }
}

impl BusState for InternalBusConnected {
    open spec fn is_connected() -> bool {
        true
    }
}

impl BusState for InternalBusDisconnected {
    open spec fn is_connected() -> bool {
        false
    }
}

/// Connection state of a node: pin state `P` and loopback-bus state `I`.
pub struct Connection<P, I> {
    marker: PhantomData<(P, I)>,
}

/// A node as it comes out of the module: nothing attached.
pub type DefaultDisconnected<P> = Connection<PinDisconnected<P>, InternalBusDisconnected>;

/// What is attached to a node.
pub trait ConnectionState {
    /// A pin pair is attached.
    spec fn pin_connected() -> bool;

    /// The loopback bus is attached.
    spec fn bus_connected() -> bool;
}

impl<P: PinState, I: BusState> ConnectionState for Connection<P, I> {
    open spec fn pin_connected() -> bool {
        P::is_connected()
    }

    open spec fn bus_connected() -> bool {
        I::is_connected()
    }
}

/// Connection states with something attached: pins, loopback bus, or both.
pub trait Connected: ConnectionState {
    /// Something is attached.
    proof fn lemma_connected()
        ensures
            Self::pin_connected() || Self::bus_connected(),
    ;
}

impl<P: CanPin> Connected for Connection<PinConnected<P>, InternalBusDisconnected> {
    proof fn lemma_connected() {
    }
}

impl<P: CanPin> Connected for Connection<PinDisconnected<P>, InternalBusConnected> {
    proof fn lemma_connected() {
    }
}

impl<P: CanPin> Connected for Connection<PinConnected<P>, InternalBusConnected> {
    proof fn lemma_connected() {
    }
}

} // verus!
