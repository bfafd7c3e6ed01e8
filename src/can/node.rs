//! A CAN node with its life cycle tracked in its type: connection, mode
//! (configuration or running), transmit and receive buffers.
//!
//! Each transition consumes the node and states exactly which configuration
//! register values it decides; the register writes themselves are carried out
//! by the caller, in the order the transitions happen.
use vstd::prelude::*;

use core::marker::PhantomData;

use vstd::layout::size_of;

use crate::can::connection::{
    BusState, CanPin, Connected, Connection, ConnectionState, DefaultDisconnected,
    InternalBusConnected, InternalBusDisconnected, PinConnected, PinDisconnected, PinState,
};
use crate::can::error::NodeErrorState;
use crate::can::module_ram::{CanBuffer, NodeMemory};
use crate::can::receive::{receive_step, FifoBehavior, NoRx, RxFifo0, RxFifo0Read, RxFifo0Status};
use crate::can::rx::CanRxFrame;
use crate::can::timing::CanBitrate;
use crate::can::transceive::{NoTx, TransmitBuffer, TxDedicated, Uninitialized, MAX_TX_BUFFERS};
use crate::can::tx::CanTxFrame;
use crate::can::{CanError, CanModule, CanModuleRAM};

verus! {

/// Value of GFC.ANFS that stores non-matching frames in FIFO 0.
pub const ACCEPT_NON_MATCHING_FIFO0: u8 = 0;

/// A node of the CAN module.
#[derive(PartialEq, Eq, Structural, Clone, Copy, Debug)]
pub enum NodeId {
    /// Node 0.
    Node0,
    /// Node 1.
    Node1,
    /// Node 2.
    Node2,
    /// Node 3.
    Node3,
}

/// The configuration register values of a node that the driver decides.
#[derive(PartialEq, Eq, Structural, Clone, Copy, Debug)]
pub struct NodeRegisters {
    /// CCCR.INIT: the node is initialising.
    pub init: bool,
    /// CCCR.CCE: configuration changes are enabled.
    pub cce: bool,
    /// NPCR.LBM: the node is attached to the internal loopback bus.
    pub loopback: bool,
    /// NPCR.RXSEL: receive-pin selection.
    pub rxsel: u8,
    /// NBTP.NSJW: sync jump width minus one.
    pub nsjw: u8,
    /// NBTP.NTSEG1: phase segment 1 minus one.
    pub ntseg1: u8,
    /// NBTP.NTSEG2: phase segment 2 minus one.
    pub ntseg2: u8,
    /// NBTP.NBRP: prescaler minus one.
    pub nbrp: u16,
    /// RXF0C.F0SA: start of FIFO 0 in the module RAM, in 32-bit words.
    pub rx_fifo0_start: u16,
    /// RXF0C.F0S: number of FIFO 0 elements.
    pub rx_fifo0_size: u8,
    /// RXF0C.F0OM: FIFO 0 overwrites when full.
    pub rx_fifo0_overwrite: bool,
    /// RXF0C.F0WM: FIFO 0 watermark, 0 for none.
    pub rx_fifo0_watermark: u8,
    /// RXESC.F0DS: data-field size code of FIFO 0 elements.
    pub rx_fifo0_data_size: u8,
    /// GFC.ANFS: where frames that match no filter go.
    pub accept_non_matching: u8,
    /// TXESC.TBDS: data-field size code of transmit buffers.
    pub tx_data_size: u8,
    /// TXBC.TBSA: start of the transmit buffers in the module RAM, in 32-bit words.
    pub tx_buffers_start: u16,
    /// TXBC.NDTB: number of dedicated transmit buffers.
    pub tx_buffers: u8,
}

impl NodeRegisters {
    /// Register values of a node entering configuration: INIT and CCE set,
    /// every other field zero.
    pub open spec fn spec_initial() -> NodeRegisters {
        NodeRegisters {
            init: true,
            cce: true,
            loopback: false,
            rxsel: 0,
            nsjw: 0,
            ntseg1: 0,
            ntseg2: 0,
            nbrp: 0,
            rx_fifo0_start: 0,
            rx_fifo0_size: 0,
            rx_fifo0_overwrite: false,
            rx_fifo0_watermark: 0,
            rx_fifo0_data_size: 0,
            accept_non_matching: 0,
            tx_data_size: 0,
            tx_buffers_start: 0,
            tx_buffers: 0,
        }
    }

    /// Register values of a node entering configuration.
    pub fn initial() -> (r: NodeRegisters)
        ensures
            r == Self::spec_initial(),
    {
        NodeRegisters {
            init: true,
            cce: true,
            loopback: false,
            rxsel: 0,
            nsjw: 0,
            ntseg1: 0,
            ntseg2: 0,
            nbrp: 0,
            rx_fifo0_start: 0,
            rx_fifo0_size: 0,
            rx_fifo0_overwrite: false,
            rx_fifo0_watermark: 0,
            rx_fifo0_data_size: 0,
            accept_non_matching: 0,
            tx_data_size: 0,
            tx_buffers_start: 0,
            tx_buffers: 0,
        }
    }
}

/// Switching a node between configuration mode (INIT and CCE set) and normal
/// operation (both clear).
pub trait NodeExt: Sized {
    /// `self` with INIT and CCE both set (`on`) or both clear, all else kept.
    spec fn spec_with_configuration(self, on: bool) -> Self;

    /// Put the node into configuration mode: set INIT and CCE.
    fn enable_init(&mut self)
        ensures
            *final(self) == old(self).spec_with_configuration(true),
    ;

    /// Let the node operate: clear CCE and INIT.
    fn disable_init(&mut self)
        ensures
            *final(self) == old(self).spec_with_configuration(false),
    ;
}

impl NodeExt for NodeRegisters {
    open spec fn spec_with_configuration(self, on: bool) -> Self {
        NodeRegisters { init: on, cce: on, ..self }
    }

    fn enable_init(&mut self) {
        self.init = true;
        self.cce = true;
    }

    fn disable_init(&mut self) {
        self.cce = false;
        self.init = false;
    }
}

/// CCCR.INIT: the node is initialising.
pub const CCCR_INIT: u32 = 0x1;

/// CCCR.CCE: configuration changes are enabled.
pub const CCCR_CCE: u32 = 0x2;

/// Where a switch of the node mode stands.
#[derive(PartialEq, Eq, Structural, Clone, Copy, Debug)]
pub enum ModeSwitchPhase {
    /// Clearing CCE, then INIT; afterwards entering configuration if `then_enter`.
    Leave { then_enter: bool },
    /// Setting INIT, then CCE.
    Enter,
    /// The node is in the requested mode.
    Done,
}

/// What to do with the CC control register (CCCR) next.
#[derive(PartialEq, Eq, Structural, Clone, Copy, Debug)]
pub enum CccrAction {
    /// Write this value, read the register back and step again.
    Write(u32),
    /// The node is in the requested mode.
    Done,
}

/// The register sequence that moves a node into configuration mode (INIT and
/// CCE set) or out of it (both clear), one bit at a time, each write repeated
/// until it reads back.
#[derive(PartialEq, Eq, Structural, Clone, Copy, Debug)]
pub struct ModeSwitch {
    phase: ModeSwitchPhase,
    entering: bool,
}

/// Setting INIT, then CCE, in the CCCR value `cccr`.
pub open spec fn enter_step(cccr: u32) -> (ModeSwitchPhase, CccrAction) {
    if cccr & CCCR_INIT == 0 {
        (ModeSwitchPhase::Enter, CccrAction::Write(cccr | CCCR_INIT))
    } else if cccr & CCCR_CCE == 0 {
        (ModeSwitchPhase::Enter, CccrAction::Write(cccr | CCCR_CCE))
    } else {
        (ModeSwitchPhase::Done, CccrAction::Done)
    }
}

/// One step of a mode switch in `phase` for the CCCR value `cccr` just read.
pub open spec fn mode_switch_step(phase: ModeSwitchPhase, cccr: u32) -> (
    ModeSwitchPhase,
    CccrAction,
) {
    match phase {
        ModeSwitchPhase::Leave { then_enter } => if cccr & CCCR_CCE != 0 {
            (phase, CccrAction::Write(cccr & !CCCR_CCE))
        } else if cccr & CCCR_INIT != 0 {
            (phase, CccrAction::Write(cccr & !CCCR_INIT))
        } else if then_enter {
            enter_step(cccr)
        } else {
            (ModeSwitchPhase::Done, CccrAction::Done)
        },
        ModeSwitchPhase::Enter => enter_step(cccr),
        ModeSwitchPhase::Done => (ModeSwitchPhase::Done, CccrAction::Done),
    }
}

impl ModeSwitch {
    /// Where the switch stands.
    pub closed spec fn spec_phase(&self) -> ModeSwitchPhase {
        self.phase
    }

    /// The switch moves the node into configuration mode (else out of it).
    pub closed spec fn spec_entering(&self) -> bool {
        self.entering
    }

    /// The switch has put the node into configuration mode.
    pub open spec fn in_configuration(&self) -> bool {
        self.spec_entering() && self.spec_phase() == ModeSwitchPhase::Done
    }

    /// Where the switch stands.
    pub fn phase(&self) -> (r: ModeSwitchPhase)
        ensures
            r == self.spec_phase(),
    {
        self.phase
    }

    /// The switch moves the node into configuration mode (else out of it).
    pub fn entering(&self) -> (r: bool)
        ensures
            r == self.spec_entering(),
    {
        self.entering
    }

    /// Enter configuration mode, given the CCCR value read first: a node found
    /// initialising (INIT set, from an earlier run) is first taken out of
    /// configuration, so that it starts from a known state.
    pub fn enter_configuration(cccr: u32) -> (r: Self)
        ensures
            r.spec_entering(),
            r.spec_phase() == (if cccr & CCCR_INIT != 0 {
                ModeSwitchPhase::Leave { then_enter: true }
            } else {
                ModeSwitchPhase::Enter
            }),
    {
        if cccr & CCCR_INIT != 0 {
            ModeSwitch { phase: ModeSwitchPhase::Leave { then_enter: true }, entering: true }
        } else {
            ModeSwitch { phase: ModeSwitchPhase::Enter, entering: true }
        }
    }

    /// Leave configuration mode: clear CCE, then INIT.
    pub fn leave_configuration() -> (r: Self)
        ensures
            !r.spec_entering(),
            r.spec_phase() == (ModeSwitchPhase::Leave { then_enter: false }),
    {
        ModeSwitch { phase: ModeSwitchPhase::Leave { then_enter: false }, entering: false }
    }

    /// Advance the switch with the CCCR value just read.
    pub fn step(&mut self, cccr: u32) -> (r: CccrAction)
        ensures
            final(self).spec_entering() == old(self).spec_entering(),
            (final(self).spec_phase(), r) == mode_switch_step(old(self).spec_phase(), cccr),
    {
        let (phase, action) = match self.phase {
            ModeSwitchPhase::Leave { then_enter } => {
                if cccr & CCCR_CCE != 0 {
                    (self.phase, CccrAction::Write(cccr & !CCCR_CCE))
                } else if cccr & CCCR_INIT != 0 {
                    (self.phase, CccrAction::Write(cccr & !CCCR_INIT))
                } else if then_enter {
                    Self::enter(cccr)
                } else {
                    (ModeSwitchPhase::Done, CccrAction::Done)
                }
            },
            ModeSwitchPhase::Enter => Self::enter(cccr),
            ModeSwitchPhase::Done => (ModeSwitchPhase::Done, CccrAction::Done),
        };
        self.phase = phase;
        action
    }

    fn enter(cccr: u32) -> (r: (ModeSwitchPhase, CccrAction))
        ensures
            r == enter_step(cccr),
    {
        if cccr & CCCR_INIT == 0 {
            (ModeSwitchPhase::Enter, CccrAction::Write(cccr | CCCR_INIT))
        } else if cccr & CCCR_CCE == 0 {
            (ModeSwitchPhase::Enter, CccrAction::Write(cccr | CCCR_CCE))
        } else {
            (ModeSwitchPhase::Done, CccrAction::Done)
        }
    }
}

/// Where every write reads back as written, entering configuration ends, after
/// at most five steps, with INIT and CCE set, from any register value.
pub proof fn lemma_enter_configuration_completes(cccr: u32)
    ensures
        ({
            let s0 = if cccr & CCCR_INIT != 0 {
                ModeSwitchPhase::Leave { then_enter: true }
            } else {
                ModeSwitchPhase::Enter
            };
            let (s1, a1) = mode_switch_step(s0, cccr);
            let v1 = if a1 is Write { a1->Write_0 } else { cccr };
            let (s2, a2) = mode_switch_step(s1, v1);
            let v2 = if a2 is Write { a2->Write_0 } else { v1 };
            let (s3, a3) = mode_switch_step(s2, v2);
            let v3 = if a3 is Write { a3->Write_0 } else { v2 };
            let (s4, a4) = mode_switch_step(s3, v3);
            let v4 = if a4 is Write { a4->Write_0 } else { v3 };
            let (s5, a5) = mode_switch_step(s4, v4);
            let v5 = if a5 is Write { a5->Write_0 } else { v4 };
            let (s6, a6) = mode_switch_step(s5, v5);
            a6 == CccrAction::Done && v5 & CCCR_INIT != 0 && v5 & CCCR_CCE != 0
        }),
{
    let s0 = if cccr & CCCR_INIT != 0 {
        ModeSwitchPhase::Leave { then_enter: true }
    } else {
        ModeSwitchPhase::Enter
    };
    lemma_cccr_bits(cccr);
    let (s1, a1) = mode_switch_step(s0, cccr);
    let v1 = if a1 is Write { a1->Write_0 } else { cccr };
    lemma_cccr_bits(v1);
    let (s2, a2) = mode_switch_step(s1, v1);
    let v2 = if a2 is Write { a2->Write_0 } else { v1 };
    lemma_cccr_bits(v2);
    let (s3, a3) = mode_switch_step(s2, v2);
    let v3 = if a3 is Write { a3->Write_0 } else { v2 };
    lemma_cccr_bits(v3);
    let (s4, a4) = mode_switch_step(s3, v3);
    let v4 = if a4 is Write { a4->Write_0 } else { v3 };
    lemma_cccr_bits(v4);
    let (s5, a5) = mode_switch_step(s4, v4);
    let v5 = if a5 is Write { a5->Write_0 } else { v4 };
    lemma_cccr_bits(v5);
}

/// Setting or clearing one of INIT and CCE leaves the other as it was.
proof fn lemma_cccr_bits(x: u32)
    ensures
        (x & !CCCR_CCE) & CCCR_CCE == 0,
        (x & !CCCR_CCE) & CCCR_INIT == x & CCCR_INIT,
        (x & !CCCR_INIT) & CCCR_INIT == 0,
        (x & !CCCR_INIT) & CCCR_CCE == x & CCCR_CCE,
        (x | CCCR_INIT) & CCCR_INIT != 0,
        (x | CCCR_INIT) & CCCR_CCE == x & CCCR_CCE,
        (x | CCCR_CCE) & CCCR_CCE != 0,
        (x | CCCR_CCE) & CCCR_INIT == x & CCCR_INIT,
{
    assert((x & !2u32) & 2u32 == 0 && (x & !2u32) & 1u32 == x & 1u32) by (bit_vector);
    assert((x & !1u32) & 1u32 == 0 && (x & !1u32) & 2u32 == x & 2u32) by (bit_vector);
    assert((x | 1u32) & 1u32 != 0 && (x | 1u32) & 2u32 == x & 2u32) by (bit_vector);
    assert((x | 2u32) & 2u32 != 0 && (x | 2u32) & 1u32 == x & 1u32) by (bit_vector);
}

/// Mode of a node: in configuration or running.
pub trait NodeState {
    /// The node takes part in bus traffic.
    spec fn is_running() -> bool;
}

/// In configuration: INIT and CCE set, timing and buffers may change.
pub struct InConfiguration;

/// Running: INIT and CCE clear, frames are exchanged.
pub struct Running;

impl NodeState for InConfiguration {
    open spec fn is_running() -> bool {
        false
    }
}

impl NodeState for Running {
    open spec fn is_running() -> bool {
        true
    }
}

/// A node of module `M`, with connection state `Conn`, mode `S`, transmit
/// configuration `TxConfig` and receive configuration `RxConfig`.
pub struct CanNode<Conn, S, TxConfig, RxConfig, M: CanModule> {
    node: NodeId,
    registers: NodeRegisters,
    /// Configuration related to transmitting.
    tx_dedicated_config: TxConfig,
    /// Configuration related to receiving.
    rx_fifo0_config: RxConfig,
    marker: PhantomData<(Conn, S, M)>,
}

impl<Conn, S, TxConfig, RxConfig, M: CanModule> CanNode<Conn, S, TxConfig, RxConfig, M> {
    /// Which node this is.
    pub closed spec fn spec_node(&self) -> NodeId {
        self.node
    }

    /// The register values decided so far.
    pub closed spec fn spec_registers(&self) -> NodeRegisters {
        self.registers
    }

    /// The transmit configuration.
    pub closed spec fn spec_tx(&self) -> TxConfig {
        self.tx_dedicated_config
    }

    /// The receive configuration.
    pub closed spec fn spec_rx(&self) -> RxConfig {
        self.rx_fifo0_config
    }

    /// Which node this is.
    pub fn node_id(&self) -> (r: NodeId)
        ensures
            r == self.spec_node(),
    {
        self.node
    }

    /// The register values decided so far.
    pub fn registers(&self) -> (r: NodeRegisters)
        ensures
            r == self.spec_registers(),
    {
        self.registers
    }
}

impl<C: ConnectionState, S: NodeState, TxConfig, RxConfig, M: CanModule> CanNode<
    C,
    S,
    TxConfig,
    RxConfig,
    M,
> {
    /// The registers agree with the type: INIT and CCE are set exactly in
    /// configuration, the loopback bit exactly when the loopback bus is
    /// attached, and a running node has something attached.
    pub open spec fn wf(&self) -> bool {
        &&& self.spec_registers().init == !S::is_running()
        &&& self.spec_registers().cce == !S::is_running()
        &&& self.spec_registers().loopback == C::bus_connected()
        &&& (S::is_running() ==> C::pin_connected() || C::bus_connected())
    }
}

/// A running node always has its pins or the loopback bus attached: no
/// sequence of transitions reaches `Running` without a connect step.
pub proof fn lemma_running_node_is_connected<C: ConnectionState, T, R, M: CanModule>(
    node: CanNode<C, Running, T, R, M>,
)
    requires
        node.wf(),
    ensures
        C::pin_connected() || C::bus_connected(),
{
}

impl<P: CanPin, M: CanModule> CanNode<DefaultDisconnected<P>, InConfiguration, NoTx, NoRx, M> {
    /// A fresh node `node` in configuration, with nothing attached.
    pub(crate) fn new(node: NodeId) -> (r: Self)
        ensures
            r.spec_node() == node,
            r.spec_registers() == NodeRegisters::spec_initial(),
            r.wf(),
    {
        CanNode {
            node,
            registers: NodeRegisters::initial(),
            tx_dedicated_config: NoTx,
            rx_fifo0_config: NoRx,
            marker: PhantomData,
        }
    }
}

impl<C: Connected, AnyTx, AnyRx, M: CanModule> CanNode<C, InConfiguration, AnyTx, AnyRx, M> {
    /// Start the node by clearing CCE and INIT. Only a node with something
    /// attached can start; otherwise it would go into error mode at once.
    pub fn finalize(self) -> (r: CanNode<C, Running, AnyTx, AnyRx, M>)
        requires
            self.wf(),
        ensures
            r.wf(),
            r.spec_node() == self.spec_node(),
            r.spec_registers() == (NodeRegisters {
                init: false,
                cce: false,
                ..self.spec_registers()
            }),
            r.spec_tx() == self.spec_tx(),
            r.spec_rx() == self.spec_rx(),
    {
        proof {
            C::lemma_connected();
        }
        let mut registers = self.registers;
        registers.disable_init();
        CanNode {
            node: self.node,
            registers,
            tx_dedicated_config: self.tx_dedicated_config,
            rx_fifo0_config: self.rx_fifo0_config,
            marker: PhantomData,
        }
    }
}

impl<C: ConnectionState, AnyTx, AnyRx, M: CanModule> CanNode<C, InConfiguration, AnyTx, AnyRx, M> {
    /// Set the nominal bit timing: each register field is the logical value
    /// minus one.
    pub fn set_bitrate(self, cfg: &CanBitrate) -> (r: Self)
        requires
            self.wf(),
            cfg.wf(),
        ensures
            r.wf(),
            r.spec_node() == self.spec_node(),
            r.spec_registers() == (NodeRegisters {
                nsjw: (cfg.spec_sync_jump_width() - 1) as u8,
                ntseg1: (cfg.spec_tseg1() - 1) as u8,
                ntseg2: (cfg.spec_tseg2() - 1) as u8,
                nbrp: (cfg.spec_pre_scaler() - 1) as u16,
                ..self.spec_registers()
            }),
            r.spec_tx() == self.spec_tx(),
            r.spec_rx() == self.spec_rx(),
    {
        let mut s = self;
        s.registers.nsjw = cfg.sync_jump_width() - 1;
        s.registers.ntseg1 = cfg.tseg1() - 1;
        s.registers.ntseg2 = cfg.tseg2() - 1;
        s.registers.nbrp = cfg.pre_scaler() - 1;
        s
    }
}

impl<P: PinState, R, T, M: CanModule> CanNode<
    Connection<P, InternalBusDisconnected>,
    InConfiguration,
    R,
    T,
    M,
> {
    /// Attach the node to the internal loopback bus (NPCR.LBM set).
    pub fn connect_internal_loopback(self) -> (r: CanNode<
        Connection<P, InternalBusConnected>,
        InConfiguration,
        R,
        T,
        M,
    >)
        requires
            self.wf(),
        ensures
            r.wf(),
            r.spec_node() == self.spec_node(),
            r.spec_registers() == (NodeRegisters { loopback: true, ..self.spec_registers() }),
            r.spec_tx() == self.spec_tx(),
            r.spec_rx() == self.spec_rx(),
    {
        let mut registers = self.registers;
        registers.loopback = true;
        CanNode {
            node: self.node,
            registers,
            tx_dedicated_config: self.tx_dedicated_config,
            rx_fifo0_config: self.rx_fifo0_config,
            marker: PhantomData,
        }
    }
}

impl<P: CanPin, I: BusState, R, T, M: CanModule> CanNode<
    Connection<PinDisconnected<P>, I>,
    InConfiguration,
    R,
    T,
    M,
> {
    /// Attach the node to `pin`, whose ports the caller has set up: selects the
    /// pin's receive input (NPCR.RXSEL).
    pub fn set_pins(self, pin: P) -> (r: CanNode<
        Connection<PinConnected<P>, I>,
        InConfiguration,
        R,
        T,
        M,
    >)
        requires
            self.wf(),
        ensures
            r.wf(),
            r.spec_node() == self.spec_node(),
            r.spec_registers() == (NodeRegisters {
                rxsel: pin.spec_rxsel(),
                ..self.spec_registers()
            }),
            r.spec_tx() == self.spec_tx(),
            r.spec_rx() == self.spec_rx(),
    {
        let mut registers = self.registers;
        registers.rxsel = pin.rxsel();
        CanNode {
            node: self.node,
            registers,
            tx_dedicated_config: self.tx_dedicated_config,
            rx_fifo0_config: self.rx_fifo0_config,
            marker: PhantomData,
        }
    }
}

impl<C: ConnectionState, AnyTx, M: CanModule> CanNode<C, InConfiguration, AnyTx, NoRx, M> {
    /// Receive every frame into FIFO 0, backed by `memory`: start word, element
    /// count and element size of the FIFO, blocking when full, no watermark,
    /// and frames that match no filter go to FIFO 0.
    pub fn set_rx_fifo0<B: CanBuffer>(self, memory: NodeMemory<CanRxFrame<B>, M::RAM>) -> (r:
        CanNode<C, InConfiguration, AnyTx, RxFifo0<B, M::RAM>, M>)
        requires
            self.wf(),
        ensures
            r.wf(),
            r.spec_node() == self.spec_node(),
            r.spec_registers() == (NodeRegisters {
                rx_fifo0_start: (memory.spec_offset() / 4) as u16,
                rx_fifo0_size: memory.spec_elements() as u8,
                rx_fifo0_overwrite: FifoBehavior::Blocking.spec_overwrite(),
                rx_fifo0_watermark: 0,
                rx_fifo0_data_size: B::spec_size().spec_code(),
                accept_non_matching: ACCEPT_NON_MATCHING_FIFO0,
                ..self.spec_registers()
            }),
            r.spec_tx() == self.spec_tx(),
            r.spec_rx().spec_memory() == memory,
            (memory.spec_offset() / 4) <= 0x4000,
    {
        proof {
            <M::RAM as CanModuleRAM>::lemma_ram_size_bound();
        }
        let offset = memory.in_module_offset();
        let elements = memory.elements();
        let behavior = FifoBehavior::Blocking;
        let mut registers = self.registers;
        registers.rx_fifo0_start = (offset / 4) as u16;
        registers.rx_fifo0_size = elements;
        registers.rx_fifo0_data_size = B::buffer_size().code();
        registers.rx_fifo0_overwrite = behavior.overwrite();
        registers.rx_fifo0_watermark = 0;
        registers.accept_non_matching = ACCEPT_NON_MATCHING_FIFO0;
        CanNode {
            node: self.node,
            registers,
            tx_dedicated_config: self.tx_dedicated_config,
            rx_fifo0_config: RxFifo0::new(memory),
            marker: PhantomData,
        }
    }
}

impl<C: Connected, B: CanBuffer, AnyTx, M: CanModule> CanNode<
    C,
    Running,
    AnyTx,
    RxFifo0<B, M::RAM>,
    M,
> {
    /// One step of the receive protocol for the FIFO state `status` read from
    /// the hardware. An empty FIFO gives `None` and nothing to acknowledge.
    /// Otherwise the slot at the get index is to be read, and then exactly that
    /// index acknowledged. A get index outside the buffer means the hardware
    /// and the configuration disagree.
    pub fn try_receive_fifo0(&mut self, status: RxFifo0Status) -> (r: Result<
        Option<RxFifo0Read>,
        CanError,
    >)
        ensures
            *final(self) == *old(self),
            match receive_step(old(self).spec_rx().spec_memory(), status) {
                Some(step) => r == Ok::<Option<RxFifo0Read>, CanError>(step),
                None => r == Err::<Option<RxFifo0Read>, CanError>(
                    CanError::ConfigurationInvariantViolated,
                ),
            },
    {
        if status.fill_level == 0 {
            return Ok(None);
        }
        let index = status.get_index;
        let memory = self.rx_fifo0_config.memory();
        match memory.get(index) {
            Some(offset) => Ok(Some(RxFifo0Read { index, offset, ack: index })),
            None => Err(CanError::ConfigurationInvariantViolated),
        }
    }
}

impl<C: Connected, R, M: CanModule> CanNode<C, InConfiguration, NoTx, R, M> {
    /// Use `memory` as dedicated transmit buffers: element size, start word and
    /// number of buffers. The hardware addresses fewer than 32 of them.
    pub fn set_tx<B: CanBuffer>(self, memory: NodeMemory<CanTxFrame<B>, M::RAM>) -> (r: CanNode<
        C,
        InConfiguration,
        TxDedicated<B, M::RAM>,
        R,
        M,
    >)
        requires
            self.wf(),
            memory.spec_elements() < 32,
        ensures
            r.wf(),
            r.spec_node() == self.spec_node(),
            r.spec_registers() == (NodeRegisters {
                tx_data_size: B::spec_size().spec_code(),
                tx_buffers_start: (memory.spec_offset() / 4) as u16,
                tx_buffers: memory.spec_elements() as u8,
                ..self.spec_registers()
            }),
            r.spec_tx().spec_memory() == memory,
            r.spec_rx() == self.spec_rx(),
            (memory.spec_offset() / 4) <= 0x4000,
    {
        proof {
            <M::RAM as CanModuleRAM>::lemma_ram_size_bound();
        }
        let addr = memory.in_module_offset();
        let num = memory.elements();
        let mut registers = self.registers;
        registers.tx_data_size = B::buffer_size().code();
        registers.tx_buffers_start = (addr / 4) as u16;
        registers.tx_buffers = num;
        CanNode {
            node: self.node,
            registers,
            tx_dedicated_config: TxDedicated::new(memory),
            rx_fifo0_config: self.rx_fifo0_config,
            marker: PhantomData,
        }
    }
}

/// Bit `index` of the pending-request register (TXBRP) value `pending`: the
/// buffer still waits for transmission.
pub open spec fn tx_pending(pending: u32, index: u8) -> bool {
    (pending >> index) & 1 == 1
}

impl<C: Connected, B: CanBuffer, R, M: CanModule> CanNode<
    C,
    Running,
    TxDedicated<B, M::RAM>,
    R,
    M,
> {
    /// Hand the first free transmit buffer (see `acquire_transmit_buffer`) to
    /// `buffer_consume` and return what it returns; `None` if every buffer is
    /// pending.
    pub fn with_transmit_buffer<
        'a,
        T,
        F: FnOnce(TransmitBuffer<'a, B, Uninitialized, M::RAM>) -> T,
    >(
        &'a mut self,
        pending: u32,
        buffer_consume: F,
    ) -> (r: Option<T>)
        requires
            forall|b: TransmitBuffer<'a, B, Uninitialized, M::RAM>| buffer_consume.requires((b,)),
        ensures
            r is Some <==> exists|j: u8|
                j < old(self).spec_tx().spec_memory().spec_elements() && !tx_pending(pending, j),
            r is Some ==> exists|b: TransmitBuffer<'a, B, Uninitialized, M::RAM>|
                {
                    &&& b.spec_buffers() == old(self).spec_tx()
                    &&& b.spec_index() < old(self).spec_tx().spec_memory().spec_elements()
                    &&& !tx_pending(pending, b.spec_index())
                    &&& forall|j: u8| j < b.spec_index() ==> tx_pending(pending, j)
                    &&& buffer_consume.ensures((b,), r->Some_0)
                },
    {
        match self.acquire_transmit_buffer(pending) {
            Some(buffer) => Some(buffer_consume(buffer)),
            None => None,
        }
    }

    /// The first transmit buffer, in index order, that the pending-request
    /// value `pending` read from the hardware shows free; `None` if all are
    /// pending. The node stays borrowed while the buffer is in use.
    pub fn acquire_transmit_buffer<'a>(&'a mut self, pending: u32) -> (r: Option<
        TransmitBuffer<'a, B, Uninitialized, M::RAM>,
    >)
        ensures
            *final(self) == *old(self),
            match r {
                Some(buf) => {
                    &&& buf.spec_index() < old(self).spec_tx().spec_memory().spec_elements()
                    &&& !tx_pending(pending, buf.spec_index())
                    &&& forall|j: u8| j < buf.spec_index() ==> tx_pending(pending, j)
                    &&& buf.spec_buffers() == old(self).spec_tx()
                },
                None => forall|j: u8|
                    j < old(self).spec_tx().spec_memory().spec_elements() ==> tx_pending(
                        pending,
                        j,
                    ),
            },
    {
        let n = self.tx_dedicated_config.memory().elements();
        let mut buffer_index: u8 = 0;
        while buffer_index < n
            invariant
                buffer_index <= n,
                n == self.tx_dedicated_config.spec_memory().spec_elements(),
                n <= MAX_TX_BUFFERS,
                *self == *old(self),
                forall|j: u8| j < buffer_index ==> tx_pending(pending, j),
            decreases n - buffer_index,
        {
            let buffer_is_free = (pending >> buffer_index) & 1 == 0;
            if buffer_is_free {
                return Some(TransmitBuffer::new(&self.tx_dedicated_config, buffer_index));
            }
            let shifted = pending >> buffer_index;
            assert(shifted & 1 != 0 ==> shifted & 1 == 1) by (bit_vector);
            buffer_index += 1;
        }
        None
    }
}

impl<C: ConnectionState, AnyTx, AnyRx, M: CanModule> CanNode<C, Running, AnyTx, AnyRx, M> {
    /// Snapshot of the error counters and protocol status, decoded from the
    /// protocol status (PSR) and error counter (ECR) register values.
    pub fn clear_error(&self, psr: u32, ecr: u32) -> (r: NodeErrorState)
        ensures
            r.decodes(psr, ecr),
    {
        NodeErrorState::from_registers(psr, ecr)
    }
}

} // verus!
