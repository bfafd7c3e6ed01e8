//! The CAN0 module: which of its nodes are still available, its message RAM,
//! and the sequence that enables a node's clock.
use vstd::prelude::*;

use core::marker::PhantomData;

use crate::can::connection::{DefaultDisconnected, Node0Pin, Node1Pin};
use crate::can::node::{CanNode, InConfiguration, NodeId};
use crate::can::receive::NoRx;
use crate::can::transceive::NoTx;
use crate::can::module_ram::NodeMemoryBuilder;
use crate::can::{CanModule, CanModuleRAM};

verus! {

/// Address of the CAN0 message RAM.
pub const CAN0_RAM_LOCATION: usize = 0xF020_0000;

/// Size of the CAN0 message RAM, in bytes.
pub const CAN0_RAM_SIZE: usize = 0x8000;

/// The node is still available in the module.
pub struct Available;

/// The node has been handed out.
pub struct Taken;

/// The CAN0 module, with the availability of node 0 and node 1 in its type.
pub struct CanModule0<Node0, Node1> {
    marker: PhantomData<(Node0, Node1)>,
}

/// The message RAM of CAN0.
pub struct CanModule0RAM;

impl CanModuleRAM for CanModule0RAM {
    open spec fn spec_ram_location() -> usize {
        CAN0_RAM_LOCATION
    }

    open spec fn spec_ram_size() -> usize {
        CAN0_RAM_SIZE
    }

    proof fn lemma_ram_size_bound() {
    }

    fn ram_location() -> (r: usize) {
        CAN0_RAM_LOCATION
    }

    fn ram_size() -> (r: usize) {
        CAN0_RAM_SIZE
    }
}

impl<Node0, Node1> CanModule for CanModule0<Node0, Node1> {
    type RAM = CanModule0RAM;
}

impl CanModule0<Available, Available> {
    /// The module with both nodes available, and the builder that owns its
    /// whole message RAM. The caller has enabled the module (CLC) and does this
    /// once, holding the module's registers exclusively.
    pub fn new() -> (r: (Self, NodeMemoryBuilder<CanModule0RAM>))
        ensures
            r.1.free_offset() == 0,
            r.1.wf(),
    {
        (CanModule0 { marker: PhantomData }, NodeMemoryBuilder::steal_module_mem())
    }
}

impl<N1> CanModule0<Available, N1> {
    /// Hand out node 0, in configuration with nothing attached. `clock` is the
    /// finished clock-enable sequence of node 0, which read the clock back as
    /// enabled; `mode` is the finished switch of the node into configuration
    /// mode (INIT and CCE set).
    pub fn node0(self, clock: &ClockEnable, mode: &crate::can::node::ModeSwitch) -> (r: (
        CanModule0<Taken, N1>,
        CanNode<DefaultDisconnected<Node0Pin>, InConfiguration, NoTx, NoRx, Self>,
    ))
        requires
            clock.enabled(NodeId::Node0),
            mode.in_configuration(),
        ensures
            r.1.spec_node() == NodeId::Node0,
            r.1.wf(),
            r.1.spec_registers() == crate::can::node::NodeRegisters::spec_initial(),
    {
        (CanModule0 { marker: PhantomData }, CanNode::new(NodeId::Node0))
    }
}

impl<N0> CanModule0<N0, Available> {
    /// Hand out node 1, in configuration with nothing attached. `clock` is the
    /// finished clock-enable sequence of node 1, which read the clock back as
    /// enabled; `mode` is the finished switch of the node into configuration
    /// mode (INIT and CCE set).
    pub fn node1(self, clock: &ClockEnable, mode: &crate::can::node::ModeSwitch) -> (r: (
        CanModule0<N0, Taken>,
        CanNode<DefaultDisconnected<Node1Pin>, InConfiguration, NoTx, NoRx, Self>,
    ))
        requires
            clock.enabled(NodeId::Node1),
            mode.in_configuration(),
        ensures
            r.1.spec_node() == NodeId::Node1,
            r.1.wf(),
            r.1.spec_registers() == crate::can::node::NodeRegisters::spec_initial(),
    {
        (CanModule0 { marker: PhantomData }, CanNode::new(NodeId::Node1))
    }
}

/// MCR.CI: clock-control changes are enabled.
pub const MCR_CI: u32 = 0x8000_0000;

/// MCR.CCCE: the clock-control change enable.
pub const MCR_CCCE: u32 = 0x4000_0000;

/// Index of a node in the clock-select fields.
pub open spec fn node_index(node: NodeId) -> u32 {
    match node {
        NodeId::Node0 => 0,
        NodeId::Node1 => 1,
        NodeId::Node2 => 2,
        NodeId::Node3 => 3,
    }
}

/// Mask of the two-bit clock-select field (MCR.CLKSELn) of `node`.
pub open spec fn clksel_mask(node: NodeId) -> u32 {
    3u32 << (2 * node_index(node)) as u32
}

/// `mcr` with both clocks of `node` selected.
pub open spec fn mcr_with_clock(mcr: u32, node: NodeId) -> u32 {
    mcr | clksel_mask(node)
}

/// Both clocks of `node` are selected in `mcr`.
pub open spec fn clock_is_enabled(mcr: u32, node: NodeId) -> bool {
    mcr & clksel_mask(node) == clksel_mask(node)
}

/// Clock-control changes are unlocked in `mcr`: CI and CCCE set.
pub open spec fn mcr_unlocked(mcr: u32) -> bool {
    mcr & MCR_CI != 0 && mcr & MCR_CCCE != 0
}

/// Clock-control changes are locked in `mcr`: CI and CCCE clear.
pub open spec fn mcr_locked(mcr: u32) -> bool {
    mcr & MCR_CI == 0 && mcr & MCR_CCCE == 0
}

/// Mask of the clock-select field of `node`.
fn clksel(node: NodeId) -> (r: u32)
    ensures
        r == clksel_mask(node),
{
    match node {
        NodeId::Node0 => 3u32 << 0u32,
        NodeId::Node1 => 3u32 << 2u32,
        NodeId::Node2 => 3u32 << 4u32,
        NodeId::Node3 => 3u32 << 6u32,
    }
}

/// Where the clock-enable sequence stands.
#[derive(PartialEq, Eq, Structural, Clone, Copy, Debug)]
pub enum ClockEnablePhase {
    /// Clock-control changes are to be unlocked.
    Unlock,
    /// Waiting for CI and CCCE to read as set.
    AwaitUnlocked,
    /// The clock selection is to be written together with the lock.
    Lock,
    /// Waiting for CI and CCCE to read as clear.
    AwaitLocked,
    /// Finished; whether the clock reads as enabled.
    Done(bool),
}

/// What to do with the module control register (MCR) next.
#[derive(PartialEq, Eq, Structural, Clone, Copy, Debug)]
pub enum McrAction {
    /// Write this value.
    Write(u32),
    /// Read the register again and step with the value read.
    Poll,
    /// The sequence is over; whether the clock of the node is enabled.
    Finished(bool),
}

/// The sequence that enables the clock of one node: unlock clock control,
/// wait, select the clock, write it again with the lock, wait, then check that
/// the selection took effect.
#[derive(PartialEq, Eq, Structural, Clone, Copy, Debug)]
pub struct ClockEnable {
    node: NodeId,
    phase: ClockEnablePhase,
}

/// One step of the clock-enable sequence for `node` in `phase`, given the
/// current MCR value `mcr`: the next phase and the action on the register.
pub open spec fn clock_enable_step(node: NodeId, phase: ClockEnablePhase, mcr: u32) -> (
    ClockEnablePhase,
    McrAction,
) {
    match phase {
        ClockEnablePhase::Unlock => (
            ClockEnablePhase::AwaitUnlocked,
            McrAction::Write(mcr | MCR_CI | MCR_CCCE),
        ),
        ClockEnablePhase::AwaitUnlocked => if mcr_unlocked(mcr) {
            (ClockEnablePhase::Lock, McrAction::Write(mcr_with_clock(mcr, node)))
        } else {
            (ClockEnablePhase::AwaitUnlocked, McrAction::Poll)
        },
        ClockEnablePhase::Lock => (
            ClockEnablePhase::AwaitLocked,
            McrAction::Write(mcr_with_clock(mcr, node) & !(MCR_CI | MCR_CCCE)),
        ),
        ClockEnablePhase::AwaitLocked => if mcr_locked(mcr) {
            let ok = clock_is_enabled(mcr, node);
            (ClockEnablePhase::Done(ok), McrAction::Finished(ok))
        } else {
            (ClockEnablePhase::AwaitLocked, McrAction::Poll)
        },
        ClockEnablePhase::Done(ok) => (ClockEnablePhase::Done(ok), McrAction::Finished(ok)),
    }
}

impl ClockEnable {
    /// The node whose clock is enabled.
    pub closed spec fn spec_node(&self) -> NodeId {
        self.node
    }

    /// Where the sequence stands.
    pub closed spec fn spec_phase(&self) -> ClockEnablePhase {
        self.phase
    }

    /// The sequence ended with the clock of `node` reading as enabled.
    pub open spec fn enabled(&self, node: NodeId) -> bool {
        self.spec_node() == node && self.spec_phase() == ClockEnablePhase::Done(true)
    }

    /// The sequence for `node`, not started.
    pub fn new(node: NodeId) -> (r: Self)
        ensures
            r.spec_node() == node,
            r.spec_phase() == ClockEnablePhase::Unlock,
    {
        ClockEnable { node, phase: ClockEnablePhase::Unlock }
    }

    /// The node whose clock is enabled.
    pub fn node(&self) -> (r: NodeId)
        ensures
            r == self.spec_node(),
    {
        self.node
    }

    /// Where the sequence stands.
    pub fn phase(&self) -> (r: ClockEnablePhase)
        ensures
            r == self.spec_phase(),
    {
        self.phase
    }

    /// Advance the sequence with the MCR value just read.
    pub fn step(&mut self, mcr: u32) -> (r: McrAction)
        ensures
            final(self).spec_node() == old(self).spec_node(),
            (final(self).spec_phase(), r) == clock_enable_step(
                old(self).spec_node(),
                old(self).spec_phase(),
                mcr,
            ),
    {
        let mask = clksel(self.node);
        let (phase, action) = match self.phase {
            ClockEnablePhase::Unlock => (
                ClockEnablePhase::AwaitUnlocked,
                McrAction::Write(mcr | MCR_CI | MCR_CCCE),
            ),
            ClockEnablePhase::AwaitUnlocked => {
                if mcr & MCR_CI != 0 && mcr & MCR_CCCE != 0 {
                    (ClockEnablePhase::Lock, McrAction::Write(mcr | mask))
                } else {
                    (ClockEnablePhase::AwaitUnlocked, McrAction::Poll)
                }
            },
            ClockEnablePhase::Lock => (
                ClockEnablePhase::AwaitLocked,
                McrAction::Write((mcr | mask) & !(MCR_CI | MCR_CCCE)),
            ),
            ClockEnablePhase::AwaitLocked => {
                if mcr & MCR_CI == 0 && mcr & MCR_CCCE == 0 {
                    let ok = mcr & mask == mask;
                    (ClockEnablePhase::Done(ok), McrAction::Finished(ok))
                } else {
                    (ClockEnablePhase::AwaitLocked, McrAction::Poll)
                }
            },
            ClockEnablePhase::Done(ok) => (ClockEnablePhase::Done(ok), McrAction::Finished(ok)),
        };
        self.phase = phase;
        action
    }
}

/// The sequence, when every register value reads back as written, ends with the
/// clock of the node enabled: from any MCR value, unlock, select and lock
/// leave both clock-select bits of the node set and CI and CCCE clear.
pub proof fn lemma_clock_enable_succeeds(node: NodeId, mcr: u32)
    ensures
        ({
            let (s1, a1) = clock_enable_step(node, ClockEnablePhase::Unlock, mcr);
            let v1 = a1->Write_0;
            let (s2, a2) = clock_enable_step(node, s1, v1);
            let v2 = a2->Write_0;
            let (s3, a3) = clock_enable_step(node, s2, v2);
            let v3 = a3->Write_0;
            let (s4, a4) = clock_enable_step(node, s3, v3);
            a4 == McrAction::Finished(true) && s4 == ClockEnablePhase::Done(true)
        }),
{
    let m = clksel_mask(node);
    assert(m == 3u32 || m == 12u32 || m == 48u32 || m == 192u32) by {
        assert(3u32 << 0u32 == 3u32) by (bit_vector);
        assert(3u32 << 2u32 == 12u32) by (bit_vector);
        assert(3u32 << 4u32 == 48u32) by (bit_vector);
        assert(3u32 << 6u32 == 192u32) by (bit_vector);
    }
    let v1 = mcr | 0x8000_0000u32 | 0x4000_0000u32;
    assert(v1 & 0x8000_0000u32 != 0 && v1 & 0x4000_0000u32 != 0) by (bit_vector)
        requires
            v1 == mcr | 0x8000_0000u32 | 0x4000_0000u32,
    ;
    let v2 = v1 | m;
    let v3 = (v2 | m) & !(0x8000_0000u32 | 0x4000_0000u32);
    assert(v3 & 0x8000_0000u32 == 0 && v3 & 0x4000_0000u32 == 0 && v3 & m == m) by (bit_vector)
        requires
            v3 == (v2 | m) & !(0x8000_0000u32 | 0x4000_0000u32),
            m == 3u32 || m == 12u32 || m == 48u32 || m == 192u32,
    ;
}

} // verus!
