//! Receive descriptor: the layout of a received frame in the message RAM.
use vstd::prelude::*;

use crate::can::module_ram::CanBuffer;
use crate::can::tx::{id_from_fields, payload_len, TxMessageT0, STANDARD_ID_SHIFT};
use crate::can::CanID;

verus! {

/// First word of a receive descriptor; it has the layout of the transmit one.
pub type RxMessageT0 = TxMessageT0;

/// Second word of a receive descriptor.
///
/// Bits 0..16: timestamp; bits 16..20: data length code; bit 20: bit-rate
/// switching; bit 21: FD format; bits 24..31: index of the matching filter;
/// bit 31: accepted as a non-matching frame.
#[derive(PartialEq, Eq, Structural, Clone, Copy, Debug)]
pub struct RxMessageT1 {
    bits: u32,
}

impl RxMessageT1 {
    /// The raw word.
    pub closed spec fn spec_bits(self) -> u32 {
        self.bits
    }

    /// The receive timestamp.
    pub open spec fn spec_rx_timestamp(self) -> u32 {
        self.spec_bits() & 0xFFFF
    }

    /// The data length code.
    pub open spec fn spec_dlc(self) -> u32 {
        (self.spec_bits() >> 16u32) & 0xF
    }

    /// The bit-rate-switching flag.
    pub open spec fn spec_bitrate_switching(self) -> bool {
        (self.spec_bits() >> 20u32) & 1 == 1
    }

    /// The FD-format flag.
    pub open spec fn spec_is_fd_format(self) -> bool {
        (self.spec_bits() >> 21u32) & 1 == 1
    }

    /// Index of the filter that accepted the frame.
    pub open spec fn spec_filter_index(self) -> u32 {
        (self.spec_bits() >> 24u32) & 0x7F
    }

    /// Whether the frame was accepted without a matching filter.
    pub open spec fn spec_accepted_non_matching_frame(self) -> bool {
        (self.spec_bits() >> 31u32) & 1 == 1
    }

    /// All fields zero.
    pub fn new() -> (r: Self)
        ensures
            r.spec_bits() == 0,
    {
        RxMessageT1 { bits: 0 }
    }

    /// The descriptor word as the controller stores it.
    pub fn from_bits(bits: u32) -> (r: Self)
        ensures
            r.spec_bits() == bits,
    {
        RxMessageT1 { bits }
    }

    /// The raw word.
    pub fn into_bits(self) -> (r: u32)
        ensures
            r == self.spec_bits(),
    {
        self.bits
    }

    /// The receive timestamp.
    pub fn rx_timestamp(&self) -> (r: u16)
        ensures
            r == self.spec_rx_timestamp(),
    {
        let b = self.bits;
        assert(b & 0xFFFFu32 <= 0xFFFF) by (bit_vector);
        (b & 0xFFFF) as u16
    }

    /// The data length code.
    pub fn dlc(&self) -> (r: u8)
        ensures
            r == self.spec_dlc(),
            r <= 15,
    {
        let b = self.bits;
        assert(((b >> 16u32) & 0xFu32) <= 15) by (bit_vector);
        ((b >> 16u32) & 0xF) as u8
    }

    /// The bit-rate-switching flag.
    pub fn bitrate_switching(&self) -> (r: bool)
        ensures
            r == self.spec_bitrate_switching(),
    {
        (self.bits >> 20u32) & 1 == 1
    }

    /// The FD-format flag.
    pub fn is_fd_format(&self) -> (r: bool)
        ensures
            r == self.spec_is_fd_format(),
    {
        (self.bits >> 21u32) & 1 == 1
    }

    /// Index of the filter that accepted the frame.
    pub fn filter_index(&self) -> (r: u8)
        ensures
            r == self.spec_filter_index(),
    {
        let b = self.bits;
        assert((b >> 24u32) & 0x7Fu32 <= 0x7F) by (bit_vector);
        ((b >> 24u32) & 0x7F) as u8
    }

    /// Whether the frame was accepted without a matching filter.
    pub fn accepted_non_matching_frame(&self) -> (r: bool)
        ensures
            r == self.spec_accepted_non_matching_frame(),
    {
        (self.bits >> 31u32) & 1 == 1
    }
}

/// A received frame, laid out as in the module RAM: two descriptor words
/// followed by the payload buffer.
pub struct CanRxFrame<B: CanBuffer> {
    transmit_buffer_0: RxMessageT0,
    transmit_buffer_1: RxMessageT1,
    /// Payload; its meaningful length is the data length code.
    buffer: B,
}

impl<B: CanBuffer> CanRxFrame<B> {
    /// First descriptor word.
    pub closed spec fn spec_t0(&self) -> RxMessageT0 {
        self.transmit_buffer_0
    }

    /// Second descriptor word.
    pub closed spec fn spec_t1(&self) -> RxMessageT1 {
        self.transmit_buffer_1
    }

    /// All bytes of the payload buffer.
    pub closed spec fn spec_buffer(&self) -> Seq<u8> {
        self.buffer.spec_data()
    }

    /// The identifier this frame carries.
    pub open spec fn spec_id(&self) -> CanID {
        id_from_fields(self.spec_t0().spec_is_extended(), self.spec_t0().spec_id())
    }

    /// The meaningful payload: the first data-length-code bytes of the buffer.
    pub open spec fn spec_payload(&self) -> Seq<u8> {
        self.spec_buffer().subrange(
            0,
            payload_len(self.spec_t1().spec_dlc(), B::spec_buffer_size()) as int,
        )
    }

    /// A frame of all-zero words and bytes.
    pub fn new() -> (r: Self)
        ensures
            r.spec_t0().spec_bits() == 0,
            r.spec_t1().spec_bits() == 0,
            r.spec_buffer() == Seq::new(B::spec_buffer_size(), |i: int| 0u8),
    {
        CanRxFrame {
            transmit_buffer_0: TxMessageT0::new(),
            transmit_buffer_1: RxMessageT1::new(),
            buffer: B::zeroed(),
        }
    }

    /// The frame made of the descriptor words and payload read from a slot.
    pub fn from_parts(t0: RxMessageT0, t1: RxMessageT1, buffer: B) -> (r: Self)
        ensures
            r.spec_t0() == t0,
            r.spec_t1() == t1,
            r.spec_buffer() == buffer.spec_data(),
    {
        CanRxFrame { transmit_buffer_0: t0, transmit_buffer_1: t1, buffer }
    }

    /// First descriptor word.
    pub fn t0(&self) -> (r: RxMessageT0)
        ensures
            r == self.spec_t0(),
    {
        self.transmit_buffer_0
    }

    /// Second descriptor word.
    pub fn t1(&self) -> (r: RxMessageT1)
        ensures
            r == self.spec_t1(),
    {
        self.transmit_buffer_1
    }

    /// The identifier: `Extended(field)` when the extended flag is set, else
    /// `Standard(field >> 18)`.
    pub fn get_id(&self) -> (r: CanID)
        ensures
            r == self.spec_id(),
    {
        let id_field = self.transmit_buffer_0.id();
        if self.transmit_buffer_0.is_extended() {
            CanID::Extended(id_field)
        } else {
            CanID::Standard((id_field >> STANDARD_ID_SHIFT) as u16)
        }
    }

    /// The meaningful payload: the first data-length-code bytes of the buffer;
    /// the bytes after them are never exposed.
    pub fn data(&self) -> (r: &[u8])
        ensures
            r@ == self.spec_payload(),
            r@.len() == payload_len(self.spec_t1().spec_dlc(), B::spec_buffer_size()),
    {
        proof {
            self.buffer.lemma_data_len();
        }
        let length = self.transmit_buffer_1.dlc() as usize;
        let all = self.buffer.as_slice();
        let end = if length <= all.len() {
            length
        } else {
            all.len()
        };
        vstd::slice::slice_subrange(all, 0, end)
    }
}

impl<B: CanBuffer> Default for CanRxFrame<B> {
    fn default() -> (r: Self)
        ensures
            r.spec_t0().spec_bits() == 0,
            r.spec_t1().spec_bits() == 0,
            r.spec_buffer() == Seq::new(B::spec_buffer_size(), |i: int| 0u8),
    {
        Self::new()
    }
}

} // verus!
