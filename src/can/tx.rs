//! Transmit descriptor: the layout of a frame to be sent, as the controller
//! reads it from the message RAM.
use vstd::prelude::*;

use crate::can::module_ram::CanBuffer;
use crate::can::{CanError, CanID, EXTENDED_ID_MAX};

verus! {

/// Mask of the 29-bit identifier field.
pub const ID_MASK: u32 = 0x1FFF_FFFF;

/// Shift of a standard identifier inside the identifier field.
pub const STANDARD_ID_SHIFT: u32 = 18;

/// Largest data length a classic frame carries.
pub const MAX_DATA_LEN: usize = 8;

/// Value of the 29-bit identifier field for `id`: a standard identifier is
/// shifted left by 18 bits, an extended one is stored as it is.
pub open spec fn id_field(id: CanID) -> u32 {
    match id {
        CanID::Standard(s) => ((s as u32) << STANDARD_ID_SHIFT) & ID_MASK,
        CanID::Extended(e) => e & ID_MASK,
    }
}

/// Whether `id` sets the extended flag.
pub open spec fn id_is_extended(id: CanID) -> bool {
    id is Extended
}

/// The identifier read back from the extended flag and the identifier field.
pub open spec fn id_from_fields(is_extended: bool, field: u32) -> CanID {
    if is_extended {
        CanID::Extended(field)
    } else {
        CanID::Standard((field >> STANDARD_ID_SHIFT) as u16)
    }
}

/// Encoding an identifier that fits its form and decoding it again yields the
/// same identifier, standard or extended.
pub proof fn lemma_id_round_trip(id: CanID)
    requires
        id.in_range(),
    ensures
        id_from_fields(id_is_extended(id), id_field(id)) == id,
{
    match id {
        CanID::Standard(s) => {
            assert((((s as u32) << 18u32) & 0x1FFF_FFFFu32) >> 18u32 == s as u32) by (bit_vector)
                requires
                    s <= 0x7FF,
            ;
        },
        CanID::Extended(e) => {
            assert(e & 0x1FFF_FFFFu32 == e) by (bit_vector)
                requires
                    e <= 0x1FFF_FFFF,
            ;
        },
    }
}

/// First word of a transmit (and receive) descriptor.
///
/// Bits 0..29: identifier; bit 29: remote request; bit 30: extended
/// identifier; bit 31: error state indicator.
#[derive(PartialEq, Eq, Structural, Clone, Copy, Debug)]
pub struct TxMessageT0 {
    bits: u32,
}

impl TxMessageT0 {
    /// The raw word.
    pub closed spec fn spec_bits(self) -> u32 {
        self.bits
    }

    /// The identifier field.
    pub open spec fn spec_id(self) -> u32 {
        self.spec_bits() & ID_MASK
    }

    /// The remote-request flag.
    pub open spec fn spec_rtr(self) -> bool {
        (self.spec_bits() >> 29u32) & 1 == 1
    }

    /// The extended-identifier flag.
    pub open spec fn spec_is_extended(self) -> bool {
        (self.spec_bits() >> 30u32) & 1 == 1
    }

    /// The error-state-indicator flag.
    pub open spec fn spec_error_state(self) -> bool {
        (self.spec_bits() >> 31u32) & 1 == 1
    }

    /// All fields zero.
    pub fn new() -> (r: Self)
        ensures
            r.spec_bits() == 0,
    {
        TxMessageT0 { bits: 0 }
    }

    /// The descriptor word as the controller stores it.
    pub fn from_bits(bits: u32) -> (r: Self)
        ensures
            r.spec_bits() == bits,
    {
        TxMessageT0 { bits }
    }

    /// The raw word.
    pub fn into_bits(self) -> (r: u32)
        ensures
            r == self.spec_bits(),
    {
        self.bits
    }

    /// The identifier field.
    pub fn id(&self) -> (r: u32)
        ensures
            r == self.spec_id(),
    {
        self.bits & ID_MASK
    }

    /// The remote-request flag.
    pub fn rtr(&self) -> (r: bool)
        ensures
            r == self.spec_rtr(),
    {
        (self.bits >> 29u32) & 1 == 1
    }

    /// The extended-identifier flag.
    pub fn is_extended(&self) -> (r: bool)
        ensures
            r == self.spec_is_extended(),
    {
        (self.bits >> 30u32) & 1 == 1
    }

    /// The error-state-indicator flag.
    pub fn error_state(&self) -> (r: bool)
        ensures
            r == self.spec_error_state(),
    {
        (self.bits >> 31u32) & 1 == 1
    }

    /// Replace the identifier field; the flags stay.
    pub fn set_id(&mut self, id: u32)
        requires
            id <= EXTENDED_ID_MAX,
        ensures
            final(self).spec_id() == id,
            final(self).spec_rtr() == old(self).spec_rtr(),
            final(self).spec_is_extended() == old(self).spec_is_extended(),
            final(self).spec_error_state() == old(self).spec_error_state(),
    {
        let old_bits = self.bits;
        let bits = (old_bits & !ID_MASK) | id;
        assert(bits & 0x1FFF_FFFFu32 == id && (bits >> 29u32) & 1 == (old_bits >> 29u32) & 1 && (
        bits >> 30u32) & 1 == (old_bits >> 30u32) & 1 && (bits >> 31u32) & 1 == (old_bits >> 31u32)
            & 1) by (bit_vector)
            requires
                id <= 0x1FFF_FFFF,
                bits == (old_bits & !0x1FFF_FFFFu32) | id,
        ;
        self.bits = bits;
    }

    /// Set or clear the extended-identifier flag; the other fields stay.
    pub fn set_is_extended(&mut self, value: bool)
        ensures
            final(self).spec_is_extended() == value,
            final(self).spec_id() == old(self).spec_id(),
            final(self).spec_rtr() == old(self).spec_rtr(),
            final(self).spec_error_state() == old(self).spec_error_state(),
    {
        let old_bits = self.bits;
        let bits = if value {
            old_bits | 0x4000_0000u32
        } else {
            old_bits & !0x4000_0000u32
        };
        assert(((old_bits | 0x4000_0000u32) >> 30u32) & 1 == 1 && ((old_bits & !0x4000_0000u32)
            >> 30u32) & 1 == 0) by (bit_vector);
        assert(bits & 0x1FFF_FFFFu32 == old_bits & 0x1FFF_FFFFu32 && (bits >> 29u32) & 1 == (
        old_bits >> 29u32) & 1 && (bits >> 31u32) & 1 == (old_bits >> 31u32) & 1) by (bit_vector)
            requires
                bits == old_bits | 0x4000_0000u32 || bits == old_bits & !0x4000_0000u32,
        ;
        self.bits = bits;
    }
}

/// Second word of a transmit descriptor.
///
/// Bits 16..20: data length code; bit 20: bit-rate switching; bit 21: FD
/// format; bit 23: event FIFO control; bits 24..32: message marker.
#[derive(PartialEq, Eq, Structural, Clone, Copy, Debug)]
pub struct TxMessageT1 {
    bits: u32,
}

impl TxMessageT1 {
    /// The raw word.
    pub closed spec fn spec_bits(self) -> u32 {
        self.bits
    }

    /// The data length code.
    pub open spec fn spec_dlc(self) -> u32 {
        (self.spec_bits() >> 16u32) & 0xF
    }

    /// The bit-rate-switching flag.
    pub open spec fn spec_bitrate_switching(self) -> bool {
        (self.spec_bits() >> 20u32) & 1 == 1
    }

    /// The FD-format flag.
    pub open spec fn spec_is_fd_format(self) -> bool {
        (self.spec_bits() >> 21u32) & 1 == 1
    }

    /// The event-FIFO-control flag.
    pub open spec fn spec_event_fifo_control(self) -> bool {
        (self.spec_bits() >> 23u32) & 1 == 1
    }

    /// The message marker.
    pub open spec fn spec_message_marker(self) -> u32 {
        self.spec_bits() >> 24u32
    }

    /// All fields zero.
    pub fn new() -> (r: Self)
        ensures
            r.spec_bits() == 0,
    {
        TxMessageT1 { bits: 0 }
    }

    /// The descriptor word as the controller stores it.
    pub fn from_bits(bits: u32) -> (r: Self)
        ensures
            r.spec_bits() == bits,
    {
        TxMessageT1 { bits }
    }

    /// The raw word.
    pub fn into_bits(self) -> (r: u32)
        ensures
            r == self.spec_bits(),
    {
        self.bits
    }

    /// The data length code.
    pub fn dlc(&self) -> (r: u8)
        ensures
            r == self.spec_dlc(),
            r <= 15,
    {
        let b = self.bits;
        assert(((b >> 16u32) & 0xFu32) <= 15) by (bit_vector);
        ((b >> 16u32) & 0xF) as u8
    }

    /// The bit-rate-switching flag.
    pub fn bitrate_switching(&self) -> (r: bool)
        ensures
            r == self.spec_bitrate_switching(),
    {
        (self.bits >> 20u32) & 1 == 1
    }

    /// The FD-format flag.
    pub fn is_fd_format(&self) -> (r: bool)
        ensures
            r == self.spec_is_fd_format(),
    {
        (self.bits >> 21u32) & 1 == 1
    }

    /// The event-FIFO-control flag.
    pub fn event_fifo_control(&self) -> (r: bool)
        ensures
            r == self.spec_event_fifo_control(),
    {
        (self.bits >> 23u32) & 1 == 1
    }

    /// The message marker.
    pub fn message_marker(&self) -> (r: u8)
        ensures
            r == self.spec_message_marker(),
    {
        let b = self.bits;
        assert(b >> 24u32 <= 0xFF) by (bit_vector);
        (b >> 24u32) as u8
    }

    /// Replace the data length code; the other fields stay.
    pub fn set_dlc(&mut self, dlc: u8)
        requires
            dlc <= 15,
        ensures
            final(self).spec_dlc() == dlc,
            final(self).spec_bitrate_switching() == old(self).spec_bitrate_switching(),
            final(self).spec_is_fd_format() == old(self).spec_is_fd_format(),
            final(self).spec_event_fifo_control() == old(self).spec_event_fifo_control(),
            final(self).spec_message_marker() == old(self).spec_message_marker(),
    {
        let old_bits = self.bits;
        let d = dlc as u32;
        let bits = (old_bits & !0x000F_0000u32) | (d << 16u32);
        assert((bits >> 16u32) & 0xF == d && (bits >> 20u32) & 1 == (old_bits >> 20u32) & 1 && (
        bits >> 21u32) & 1 == (old_bits >> 21u32) & 1 && (bits >> 23u32) & 1 == (old_bits >> 23u32)
            & 1 && bits >> 24u32 == old_bits >> 24u32) by (bit_vector)
            requires
                d <= 15,
                bits == (old_bits & !0x000F_0000u32) | (d << 16u32),
        ;
        self.bits = bits;
    }
}

/// Number of payload bytes a frame exposes: the data length code, but never
/// more than the buffer holds.
pub open spec fn payload_len(dlc: u32, capacity: nat) -> nat {
    if dlc as nat <= capacity {
        dlc as nat
    } else {
        capacity
    }
}

/// A frame to be transmitted, laid out as in the module RAM: two descriptor
/// words followed by the payload buffer.
pub struct CanTxFrame<B: CanBuffer> {
    transmit_buffer_0: TxMessageT0,
    transmit_buffer_1: TxMessageT1,
    /// Payload; its meaningful length is the data length code.
    buffer: B,
}

impl<B: CanBuffer> CanTxFrame<B> {
    /// First descriptor word.
    pub closed spec fn spec_t0(&self) -> TxMessageT0 {
        self.transmit_buffer_0
    }

    /// Second descriptor word.
    pub closed spec fn spec_t1(&self) -> TxMessageT1 {
        self.transmit_buffer_1
    }

    /// All bytes of the payload buffer.
    pub closed spec fn spec_buffer(&self) -> Seq<u8> {
        self.buffer.spec_data()
    }

    /// The identifier this frame carries.
    pub open spec fn spec_id(&self) -> CanID {
        id_from_fields(self.spec_t0().spec_is_extended(), self.spec_t0().spec_id())
    }

    /// The meaningful payload: the first data-length-code bytes of the buffer.
    pub open spec fn spec_payload(&self) -> Seq<u8> {
        self.spec_buffer().subrange(
            0,
            payload_len(self.spec_t1().spec_dlc(), B::spec_buffer_size()) as int,
        )
    }

    /// What `set_id(id)` makes of `self`: identifier field and extended flag
    /// from `id`, all else as before.
    pub open spec fn set_id_post(&self, after: &Self, id: CanID) -> bool {
        &&& after.spec_t0().spec_id() == id_field(id)
        &&& after.spec_t0().spec_is_extended() == id_is_extended(id)
        &&& after.spec_t0().spec_rtr() == self.spec_t0().spec_rtr()
        &&& after.spec_t0().spec_error_state() == self.spec_t0().spec_error_state()
        &&& after.spec_t1() == self.spec_t1()
        &&& after.spec_buffer() == self.spec_buffer()
    }

    /// What a successful `set_data(data)` makes of `self`: the data length code
    /// is the length of `data`, the buffer starts with `data`, all else as before.
    pub open spec fn set_data_post(&self, after: &Self, data: Seq<u8>) -> bool {
        &&& after.spec_t0() == self.spec_t0()
        &&& after.spec_t1().spec_dlc() == data.len()
        &&& after.spec_t1().spec_bitrate_switching() == self.spec_t1().spec_bitrate_switching()
        &&& after.spec_t1().spec_is_fd_format() == self.spec_t1().spec_is_fd_format()
        &&& after.spec_t1().spec_event_fifo_control() == self.spec_t1().spec_event_fifo_control()
        &&& after.spec_t1().spec_message_marker() == self.spec_t1().spec_message_marker()
        &&& after.spec_buffer().len() == B::spec_buffer_size()
        &&& after.spec_buffer().subrange(0, data.len() as int) == data
        &&& after.spec_buffer().subrange(data.len() as int, B::spec_buffer_size() as int)
            == self.spec_buffer().subrange(data.len() as int, B::spec_buffer_size() as int)
    }

    /// An empty frame: all descriptor fields and payload bytes zero.
    pub fn new() -> (r: Self)
        ensures
            r.spec_t0().spec_bits() == 0,
            r.spec_t1().spec_bits() == 0,
            r.spec_buffer() == Seq::new(B::spec_buffer_size(), |i: int| 0u8),
    {
        CanTxFrame {
            transmit_buffer_0: TxMessageT0::new(),
            transmit_buffer_1: TxMessageT1::new(),
            buffer: B::zeroed(),
        }
    }

    /// First descriptor word.
    pub fn t0(&self) -> (r: TxMessageT0)
        ensures
            r == self.spec_t0(),
    {
        self.transmit_buffer_0
    }

    /// Second descriptor word.
    pub fn t1(&self) -> (r: TxMessageT1)
        ensures
            r == self.spec_t1(),
    {
        self.transmit_buffer_1
    }

    /// All bytes of the payload buffer, as written to the module RAM.
    pub fn buffer(&self) -> (r: &[u8])
        ensures
            r@ == self.spec_buffer(),
    {
        self.buffer.as_slice()
    }

    /// Store `id`: a standard identifier shifted into place with the extended
    /// flag cleared, an extended one as it is with the flag set.
    pub fn set_id(&mut self, id: CanID)
        requires
            id.in_range(),
        ensures
            old(self).set_id_post(final(self), id),
            final(self).spec_id() == id,
    {
        let id_field = match id {
            CanID::Standard(id) => {
                self.transmit_buffer_0.set_is_extended(false);
                assert(((id as u32) << 18u32) <= 0x1FFF_FFFF && ((id as u32) << 18u32)
                    & 0x1FFF_FFFFu32 == ((id as u32) << 18u32)) by (bit_vector)
                    requires
                        id <= 0x7FF,
                ;
                (id as u32) << STANDARD_ID_SHIFT
            },
            CanID::Extended(id) => {
                self.transmit_buffer_0.set_is_extended(true);
                assert(id & 0x1FFF_FFFFu32 == id) by (bit_vector)
                    requires
                        id <= 0x1FFF_FFFF,
                ;
                id
            },
        };
        self.transmit_buffer_0.set_id(id_field);
        proof {
            lemma_id_round_trip(id);
        }
    }

    /// The identifier this frame carries.
    pub fn get_id(&self) -> (r: CanID)
        ensures
            r == self.spec_id(),
    {
        let id_field = self.transmit_buffer_0.id();
        if self.transmit_buffer_0.is_extended() {
            CanID::Extended(id_field)
        } else {
            CanID::Standard((id_field >> STANDARD_ID_SHIFT) as u16)
        }
    }

    /// Copy `data` to the start of the payload and store its length as the data
    /// length code. More than eight bytes are refused and leave the frame as it was.
    pub fn set_data(&mut self, data: &[u8]) -> (r: Result<(), CanError>)
        ensures
            r is Ok <==> data@.len() <= MAX_DATA_LEN,
            r is Ok ==> old(self).set_data_post(final(self), data@),
            r is Ok ==> final(self).spec_payload() == data@,
            r is Err ==> r == Err::<(), CanError>(CanError::PayloadTooLarge) && *final(self)
                == *old(self),
    {
        if data.len() > MAX_DATA_LEN {
            return Err(CanError::PayloadTooLarge);
        }
        proof {
            self.buffer.lemma_data_len();
        }
        let ghost before = self.buffer.spec_data();
        let mut i: usize = 0;
        while i < data.len()
            invariant
                data@.len() <= MAX_DATA_LEN,
                MAX_DATA_LEN <= B::spec_buffer_size(),
                i <= data@.len(),
                self.buffer.spec_data().len() == B::spec_buffer_size(),
                forall|k: int| 0 <= k < i ==> self.buffer.spec_data()[k] == data@[k],
                forall|k: int|
                    i <= k < B::spec_buffer_size() ==> self.buffer.spec_data()[k] == before[k],
                self.transmit_buffer_0 == old(self).transmit_buffer_0,
                self.transmit_buffer_1 == old(self).transmit_buffer_1,
            decreases data@.len() - i,
        {
            self.buffer.set_byte(i, data[i]);
            i += 1;
        }
        self.transmit_buffer_1.set_dlc(data.len() as u8);
        assert(self.buffer.spec_data().subrange(0, data@.len() as int) =~= data@);
        assert(self.buffer.spec_data().subrange(data@.len() as int, B::spec_buffer_size() as int)
            =~= before.subrange(data@.len() as int, B::spec_buffer_size() as int));
        Ok(())
    }

    /// The meaningful payload: the first data-length-code bytes of the buffer.
    pub fn data(&self) -> (r: &[u8])
        ensures
            r@ == self.spec_payload(),
            r@.len() == payload_len(self.spec_t1().spec_dlc(), B::spec_buffer_size()),
    {
        proof {
            self.buffer.lemma_data_len();
        }
        let length = self.transmit_buffer_1.dlc() as usize;
        let all = self.buffer.as_slice();
        let end = if length <= all.len() {
            length
        } else {
            all.len()
        };
        vstd::slice::slice_subrange(all, 0, end)
    }
}

impl<B: CanBuffer> Default for CanTxFrame<B> {
    fn default() -> (r: Self)
        ensures
            r.spec_t0().spec_bits() == 0,
            r.spec_t1().spec_bits() == 0,
            r.spec_buffer() == Seq::new(B::spec_buffer_size(), |i: int| 0u8),
    {
        Self::new()
    }
}

/// Storing an in-range identifier and reading it back yields that identifier.
pub proof fn lemma_frame_id_round_trip<B: CanBuffer>(
    before: CanTxFrame<B>,
    after: CanTxFrame<B>,
    id: CanID,
)
    requires
        id.in_range(),
        before.set_id_post(&after, id),
    ensures
        after.spec_id() == id,
{
    lemma_id_round_trip(id);
}

/// The payload read back after storing at most eight bytes is exactly those bytes.
pub proof fn lemma_payload_round_trip<B: CanBuffer>(
    before: CanTxFrame<B>,
    after: CanTxFrame<B>,
    data: Seq<u8>,
)
    requires
        data.len() <= MAX_DATA_LEN,
        before.set_data_post(&after, data),
    ensures
        after.spec_payload() == data,
{
    after.buffer.lemma_data_len();
    assert(after.spec_t1().spec_dlc() as nat == data.len());
}

} // verus!
