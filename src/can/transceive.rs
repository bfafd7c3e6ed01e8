//! Transmit side of a node: dedicated transmit buffers in the message RAM.
use vstd::prelude::*;

use core::marker::PhantomData;

use vstd::layout::size_of;

use crate::can::module_ram::{CanBuffer, NodeMemory};
use crate::can::tx::CanTxFrame;
use crate::can::CanModuleRAM;

verus! {

/// Largest number of dedicated transmit buffers.
pub const MAX_TX_BUFFERS: u8 = 31;

/// No transmit buffer attached.
pub struct NoTx;

/// Dedicated transmit buffers attached, backed by `memory`.
pub struct TxDedicated<B: CanBuffer, M: CanModuleRAM> {
    memory: NodeMemory<CanTxFrame<B>, M>,
}

impl<B: CanBuffer, M: CanModuleRAM> TxDedicated<B, M> {
    #[verifier::type_invariant]
    closed spec fn inv(self) -> bool {
        self.memory.spec_elements() <= MAX_TX_BUFFERS
    }

    /// The buffers behind the transmit side.
    pub closed spec fn spec_memory(&self) -> NodeMemory<CanTxFrame<B>, M> {
        self.memory
    }

    /// Transmit buffers backed by `memory`, fewer than 32 of them.
    pub(crate) fn new(memory: NodeMemory<CanTxFrame<B>, M>) -> (r: Self)
        requires
            memory.spec_elements() <= MAX_TX_BUFFERS,
        ensures
            r.spec_memory() == memory,
    {
        TxDedicated { memory }
    }

    /// The buffers behind the transmit side, fewer than 32 of them.
    pub fn memory(&self) -> (r: &NodeMemory<CanTxFrame<B>, M>)
        ensures
            *r == self.spec_memory(),
            r.spec_elements() <= MAX_TX_BUFFERS,
    {
        proof {
            use_type_invariant(self);
        }
        &self.memory
    }
}

/// A transmit buffer whose frame has not been written yet.
pub struct Uninitialized;

/// A transmit buffer holding the frame to send.
pub struct Initialized;

/// The write that places a frame in its transmit slot: `frame` goes to byte
/// `offset` of the module RAM.
pub struct TxSlotWrite<B: CanBuffer> {
    /// Offset of the slot within the module RAM.
    pub offset: usize,
    /// The frame to write there.
    pub frame: CanTxFrame<B>,
}

/// Write access to the free transmit buffer `in_buffer_index`, in phase `S`:
/// first the frame is set, only then can it be sent.
pub struct TransmitBuffer<'a, B: CanBuffer, S, M: CanModuleRAM> {
    buffer: &'a TxDedicated<B, M>,
    in_buffer_index: u8,
    marker: PhantomData<S>,
}

impl<'a, B: CanBuffer, S, M: CanModuleRAM> TransmitBuffer<'a, B, S, M> {
    #[verifier::type_invariant]
    closed spec fn inv(self) -> bool {
        &&& self.in_buffer_index < self.buffer.spec_memory().spec_elements()
        &&& self.buffer.spec_memory().spec_elements() <= MAX_TX_BUFFERS
    }

    /// Index of the buffer.
    pub closed spec fn spec_index(&self) -> u8 {
        self.in_buffer_index
    }

    /// The transmit buffers this one belongs to.
    pub closed spec fn spec_buffers(&self) -> TxDedicated<B, M> {
        *self.buffer
    }

    /// Index of the buffer.
    pub fn index(&self) -> (r: u8)
        ensures
            r == self.spec_index(),
            r < self.spec_buffers().spec_memory().spec_elements(),
            r < MAX_TX_BUFFERS,
    {
        proof {
            use_type_invariant(self);
        }
        self.in_buffer_index
    }
}

impl<'a, B: CanBuffer, M: CanModuleRAM> TransmitBuffer<'a, B, Uninitialized, M> {
    /// Access to buffer `index` of `buffer`.
    pub(crate) fn new(buffer: &'a TxDedicated<B, M>, index: u8) -> (r: Self)
        requires
            index < buffer.spec_memory().spec_elements(),
        ensures
            r.spec_index() == index,
            r.spec_buffers() == *buffer,
    {
        proof {
            use_type_invariant(buffer);
        }
        TransmitBuffer { buffer, in_buffer_index: index, marker: PhantomData }
    }

    /// Place `frame` in this buffer. The returned write has to reach the message
    /// RAM (with element-wide stores, then a memory barrier) before `send`.
    pub fn set_frame(self, frame: CanTxFrame<B>) -> (r: (
        TransmitBuffer<'a, B, Initialized, M>,
        TxSlotWrite<B>,
    ))
        ensures
            r.0.spec_index() == self.spec_index(),
            r.0.spec_buffers() == self.spec_buffers(),
            r.1.frame == frame,
            r.1.offset == self.spec_buffers().spec_memory().spec_offset() + size_of::<
                CanTxFrame<B>,
            >() * self.spec_index(),
    {
        proof {
            use_type_invariant(&self);
        }
        let offset = self.buffer.memory().get(self.in_buffer_index).unwrap();
        (
            TransmitBuffer {
                buffer: self.buffer,
                in_buffer_index: self.in_buffer_index,
                marker: PhantomData,
            },
            TxSlotWrite { offset, frame },
        )
    }
}

impl<'a, B: CanBuffer, M: CanModuleRAM> TransmitBuffer<'a, B, Initialized, M> {
    /// Request transmission of this buffer: the returned word has exactly the
    /// buffer's bit set and is written to the add-request register (TXBAR).
    pub fn send(self) -> (r: u32)
        ensures
            r == 1u32 << self.spec_index(),
    {
        proof {
            use_type_invariant(&self);
        }
        1u32 << self.in_buffer_index
    }
}

} // verus!
