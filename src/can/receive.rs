//! Receive side of a node: FIFO 0 in the message RAM.
use vstd::prelude::*;

use vstd::layout::size_of;

use crate::can::module_ram::{CanBuffer, NodeMemory};
use crate::can::rx::CanRxFrame;
use crate::can::CanModuleRAM;

verus! {

/// No receive buffer attached.
pub struct NoRx;

/// Receive FIFO 0 attached, backed by `memory`.
pub struct RxFifo0<B: CanBuffer, M: CanModuleRAM> {
    memory: NodeMemory<CanRxFrame<B>, M>,
}

impl<B: CanBuffer, M: CanModuleRAM> RxFifo0<B, M> {
    /// The buffer behind the FIFO.
    pub closed spec fn spec_memory(&self) -> NodeMemory<CanRxFrame<B>, M> {
        self.memory
    }

    /// FIFO 0 backed by `memory`.
    pub(crate) fn new(memory: NodeMemory<CanRxFrame<B>, M>) -> (r: Self)
        ensures
            r.spec_memory() == memory,
    {
        RxFifo0 { memory }
    }

    /// The buffer behind the FIFO.
    pub fn memory(&self) -> (r: &NodeMemory<CanRxFrame<B>, M>)
        ensures
            *r == self.spec_memory(),
    {
        &self.memory
    }
}

/// What happens when the FIFO is full. Overwriting is not offered: it would
/// race the controller for the slot being read.
#[derive(PartialEq, Eq, Structural, Clone, Copy, Debug)]
pub enum FifoBehavior {
    /// New frames are dropped while the FIFO is full.
    Blocking,
}

impl FifoBehavior {
    /// Value of the overwrite-mode bit (RXF0C.F0OM).
    pub open spec fn spec_overwrite(self) -> bool {
        match self {
            FifoBehavior::Blocking => false,
        }
    }

    /// Value of the overwrite-mode bit (RXF0C.F0OM).
    pub fn overwrite(&self) -> (r: bool)
        ensures
            r == self.spec_overwrite(),
    {
        match self {
            FifoBehavior::Blocking => false,
        }
    }
}

/// FIFO 0 state as read from the status register (RXF0S).
#[derive(PartialEq, Eq, Structural, Clone, Copy, Debug)]
pub struct RxFifo0Status {
    /// Number of frames waiting (F0FL).
    pub fill_level: u8,
    /// Index of the next frame to read (F0GI).
    pub get_index: u8,
}

/// One step of draining FIFO 0: read the frame in slot `index`, found at byte
/// `offset` of the module RAM, then, after the read, write `ack` to the
/// acknowledge register (RXF0A.F0AI) so the controller releases the slot.
#[derive(PartialEq, Eq, Structural, Clone, Copy, Debug)]
pub struct RxFifo0Read {
    /// Slot to read.
    pub index: u8,
    /// Offset of the slot within the module RAM.
    pub offset: usize,
    /// Index to acknowledge once the slot is read.
    pub ack: u8,
}

/// The step the receive protocol takes for FIFO state `status` with a FIFO of
/// `memory`: nothing while the FIFO is empty; otherwise read and acknowledge
/// the slot at the get index, which must lie inside the buffer.
pub open spec fn receive_step<B: CanBuffer, M: CanModuleRAM>(
    memory: NodeMemory<CanRxFrame<B>, M>,
    status: RxFifo0Status,
) -> Option<Option<RxFifo0Read>> {
    if status.fill_level == 0 {
        Some(None)
    } else if status.get_index < memory.spec_elements() {
        Some(
            Some(
                RxFifo0Read {
                    index: status.get_index,
                    offset: (memory.spec_offset() + size_of::<CanRxFrame<B>>()
                        * status.get_index) as usize,
                    ack: status.get_index,
                },
            ),
        )
    } else {
        None
    }
}

/// Number of frames the controller releases when `ack` is written to the
/// acknowledge register while the get index is `get_index`, in a FIFO of `size`
/// slots: every slot from the get index up to and including `ack`.
pub open spec fn released_by_ack(get_index: int, ack: int, size: int) -> int {
    (ack - get_index) % size + 1
}

/// Get index of the FIFO after `ack` is acknowledged: the slot after it.
pub open spec fn get_index_after_ack(ack: int, size: int) -> int {
    (ack + 1) % size
}

/// The receive protocol: with an empty FIFO there is no frame and nothing to
/// acknowledge; otherwise exactly one slot is read and exactly that slot is
/// acknowledged, which releases one frame and moves the get index on by one.
pub proof fn lemma_receive_protocol<B: CanBuffer, M: CanModuleRAM>(
    memory: NodeMemory<CanRxFrame<B>, M>,
    status: RxFifo0Status,
)
    ensures
        status.fill_level == 0 ==> receive_step(memory, status) == Some(None::<RxFifo0Read>),
        status.fill_level > 0 && status.get_index < memory.spec_elements() ==> {
            let n = memory.spec_elements() as int;
            let gi = status.get_index as int;
            &&& receive_step(memory, status) matches Some(Some(read))
            &&& read.index == status.get_index
            &&& read.ack == status.get_index
            &&& released_by_ack(gi, read.ack as int, n) == 1
            &&& get_index_after_ack(read.ack as int, n) == (gi + 1) % n
        },
{
    if status.fill_level > 0 && status.get_index < memory.spec_elements() {
        let n = memory.spec_elements() as int;
        vstd::arithmetic::div_mod::lemma_small_mod(0nat, n as nat);
    }
}

} // verus!
