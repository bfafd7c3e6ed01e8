//! Ownership of the module's message RAM: a bump allocator that hands out
//! aligned, disjoint buffers of frame elements, each exactly once.
use vstd::prelude::*;

use core::marker::PhantomData;

use vstd::layout::{align_of, size_of};

use crate::can::{CanError, CanModuleRAM};

verus! {

/// Largest number of elements in one buffer.
pub const MAX_BUFFER_ELEMENTS: usize = 32;

/// Bytes needed to move `address` up to the next multiple of `align`.
pub open spec fn padding_for(address: int, align: int) -> int {
    if address % align == 0 {
        0
    } else {
        align - address % align
    }
}

/// Carves the message RAM of module `M` into buffers.
///
/// Everything below `free_offset` has been handed out; the offset only grows.
pub struct NodeMemoryBuilder<M: CanModuleRAM> {
    free_offset: usize,
    marker: PhantomData<M>,
}

impl<M: CanModuleRAM> NodeMemoryBuilder<M> {
    /// Offset, within the module RAM, from which memory is still free.
    pub closed spec fn free_offset(&self) -> nat {
        self.free_offset as nat
    }

    /// The free offset never exceeds the RAM size.
    pub open spec fn wf(&self) -> bool {
        self.free_offset() <= M::spec_ram_size()
    }

    /// Padding that a buffer of `T` taken now needs for its alignment.
    pub open spec fn padding<T>(&self) -> int {
        padding_for(M::spec_ram_location() + self.free_offset(), align_of::<T>() as int)
    }

    /// Whether `take::<T>(num)` succeeds now: the start address is representable,
    /// and the padded buffer fits both the address arithmetic and the RAM.
    pub open spec fn fits<T>(&self, num: nat) -> bool {
        &&& M::spec_ram_location() + self.free_offset() <= usize::MAX
        &&& self.free_offset() + self.padding::<T>() <= isize::MAX
        &&& size_of::<T>() * num <= isize::MAX
        &&& self.free_offset() + self.padding::<T>() + size_of::<T>() * num <= M::spec_ram_size()
    }

    /// `mem` is the buffer of `num` elements that a successful `take` hands out
    /// when it moves this builder to `after`: it starts right after the padding,
    /// is aligned for `T`, and the free offset moves to its end.
    pub open spec fn took<T>(self, after: Self, mem: NodeMemory<T, M>, num: nat) -> bool {
        &&& self.fits::<T>(num)
        &&& mem.spec_offset() == self.free_offset() + self.padding::<T>()
        &&& mem.spec_elements() == num
        &&& after.free_offset() == mem.spec_offset() + size_of::<T>() * num
        &&& (M::spec_ram_location() + mem.spec_offset()) % (align_of::<T>() as int) == 0
    }

    /// Take ownership of the whole message RAM of the module, nothing used yet.
    /// Only the module's constructor does this, once per module value.
    pub(crate) fn steal_module_mem() -> (r: NodeMemoryBuilder<M>)
        ensures
            r.free_offset() == 0,
            r.wf(),
    {
        NodeMemoryBuilder { free_offset: 0, marker: PhantomData }
    }

    /// Offset, within the module RAM, from which memory is still free.
    pub fn used(&self) -> (r: usize)
        ensures
            r == self.free_offset(),
    {
        self.free_offset
    }

    /// Reserve `num` consecutive elements of `T`, aligned for `T`, from the free
    /// memory. The free offset moves past the padding and the elements; on
    /// failure nothing changes.
    pub fn take<T: Sized + Default>(&mut self, num: usize) -> (r: Result<
        NodeMemory<T, M>,
        CanError,
    >)
        requires
            num <= MAX_BUFFER_ELEMENTS,
            old(self).wf(),
        ensures
            final(self).wf(),
            r is Ok <==> old(self).fits::<T>(num as nat),
            match r {
                Ok(mem) => old(self).took(*final(self), mem, num as nat),
                Err(e) => {
                    &&& e == CanError::OutOfMemory
                    &&& *final(self) == *old(self)
                },
            },
    {
        vstd::layout::layout_for_type_is_valid::<T>();
        broadcast use vstd::layout::align_nonzero;

        proof {
            M::lemma_ram_size_bound();
        }
        let location = M::ram_location();
        let ram_size = M::ram_size();
        let start_address = match location.checked_add(self.free_offset) {
            Some(a) => a,
            None => return Err(CanError::OutOfMemory),
        };

        // The buffer has to be aligned for T.
        let align = core::mem::align_of::<T>();
        let misaligned_by = start_address % align;
        let padding = if misaligned_by > 0 {
            align - misaligned_by
        } else {
            0
        };
        assert(padding == old(self).padding::<T>());

        let extra_bytes_required = match core::mem::size_of::<T>().checked_mul(num) {
            Some(b) => b,
            None => {
                assert(size_of::<T>() * num > isize::MAX);
                return Err(CanError::OutOfMemory);
            },
        };
        if padding > isize::MAX as usize - self.free_offset {
            return Err(CanError::OutOfMemory);
        }
        if extra_bytes_required > isize::MAX as usize {
            return Err(CanError::OutOfMemory);
        }
        if self.free_offset + padding + extra_bytes_required > ram_size {
            return Err(CanError::OutOfMemory);
        }

        let in_module_offset = self.free_offset + padding;
        proof {
            lemma_padding_aligns(start_address as int, align as int);
        }
        self.free_offset = in_module_offset + extra_bytes_required;
        Ok(NodeMemory { in_module_offset, elements: num as u8, marker: PhantomData })
    }

    /// Variant of `take` for callers that treat exhaustion as a configuration bug:
    /// the request is known to fit.
    pub fn take_expect<T: Sized + Default>(&mut self, num: usize) -> (r: NodeMemory<T, M>)
        requires
            num <= MAX_BUFFER_ELEMENTS,
            old(self).wf(),
            old(self).fits::<T>(num as nat),
        ensures
            final(self).wf(),
            old(self).took(*final(self), r, num as nat),
    {
        let r = self.take(num);
        r.unwrap()
    }
}

/// The free offset only grows: a buffer taken from `before` lies between its
/// free offset and that of `after`, inside the RAM.
pub proof fn lemma_take_moves_forward<M: CanModuleRAM, T>(
    before: NodeMemoryBuilder<M>,
    after: NodeMemoryBuilder<M>,
    mem: NodeMemory<T, M>,
    num: nat,
)
    requires
        before.took(after, mem, num),
    ensures
        before.free_offset() <= mem.spec_offset(),
        mem.spec_offset() + size_of::<T>() * mem.spec_elements() == after.free_offset(),
        after.free_offset() <= M::spec_ram_size(),
{
    broadcast use vstd::layout::align_nonzero;

    lemma_padding_aligns(M::spec_ram_location() + before.free_offset(), align_of::<T>() as int);
}

/// Buffers taken from one builder never overlap: if `first` was taken before
/// `second` (the free offset only grows between the two), `first` ends where
/// `second` starts or below, and each buffer is aligned for its element type.
pub proof fn lemma_taken_buffers_disjoint<M: CanModuleRAM, T, U>(
    b0: NodeMemoryBuilder<M>,
    b1: NodeMemoryBuilder<M>,
    first: NodeMemory<T, M>,
    n1: nat,
    b2: NodeMemoryBuilder<M>,
    b3: NodeMemoryBuilder<M>,
    second: NodeMemory<U, M>,
    n2: nat,
)
    requires
        b0.took(b1, first, n1),
        b2.took(b3, second, n2),
        b1.free_offset() <= b2.free_offset(),
    ensures
        first.spec_offset() + size_of::<T>() * first.spec_elements() <= second.spec_offset(),
        (M::spec_ram_location() + first.spec_offset()) % (align_of::<T>() as int) == 0,
        (M::spec_ram_location() + second.spec_offset()) % (align_of::<U>() as int) == 0,
{
    broadcast use vstd::layout::align_nonzero;

    lemma_padding_aligns(M::spec_ram_location() + b2.free_offset(), align_of::<U>() as int);
}

/// Moving an address up by its padding makes it a multiple of the alignment.
pub proof fn lemma_padding_aligns(address: int, align: int)
    requires
        address >= 0,
        align > 0,
    ensures
        (address + padding_for(address, align)) % align == 0,
        0 <= padding_for(address, align) < align,
{
    let m = address % align;
    let q = address / align;
    vstd::arithmetic::div_mod::lemma_fundamental_div_mod(address, align);
    if m != 0 {
        assert(address + (align - m) == (q + 1) * align) by (nonlinear_arith)
            requires
                address == align * q + m,
        ;
        vstd::arithmetic::div_mod::lemma_mod_multiples_basic(q + 1, align);
    }
}

/// A buffer of `elements` elements of type `E` inside the message RAM of module
/// `M`, starting at byte offset `in_module_offset`. Its extent never changes, and
/// it is handed on by move, never duplicated.
pub struct NodeMemory<E, M: CanModuleRAM> {
    in_module_offset: usize,
    elements: u8,
    marker: PhantomData<(E, M)>,
}

impl<E, M: CanModuleRAM> NodeMemory<E, M> {
    #[verifier::type_invariant]
    closed spec fn inv(self) -> bool {
        &&& self.elements <= MAX_BUFFER_ELEMENTS
        &&& self.in_module_offset + size_of::<E>() * self.elements <= M::spec_ram_size()
    }

    /// Start of the buffer, relative to the module RAM.
    pub closed spec fn spec_offset(&self) -> nat {
        self.in_module_offset as nat
    }

    /// Number of elements.
    pub closed spec fn spec_elements(&self) -> nat {
        self.elements as nat
    }

    /// Offset of element `idx` relative to the module RAM, or `None` if `idx`
    /// is out of range.
    pub fn get(&self, idx: u8) -> (r: Option<usize>)
        ensures
            idx < self.spec_elements() ==> r is Some && r->Some_0 == self.spec_offset() + size_of::<
                E,
            >() * idx,
            idx >= self.spec_elements() ==> r is None,
    {
        proof {
            use_type_invariant(self);
        }
        if idx >= self.elements {
            None
        } else {
            let size = core::mem::size_of::<E>();
            assert(size * idx <= size * self.elements) by (nonlinear_arith)
                requires
                    idx < self.elements,
            ;
            Some(self.in_module_offset + size * idx as usize)
        }
    }

    /// The relative address of this block.
    pub fn in_module_offset(&self) -> (r: usize)
        ensures
            r == self.spec_offset(),
            r + size_of::<E>() * self.spec_elements() <= M::spec_ram_size(),
    {
        proof {
            use_type_invariant(self);
        }
        self.in_module_offset
    }

    /// The number of elements in this block, at most 32.
    pub fn elements(&self) -> (r: u8)
        ensures
            r == self.spec_elements(),
            r <= MAX_BUFFER_ELEMENTS,
    {
        proof {
            use_type_invariant(self);
        }
        self.elements
    }
}

/// Marker for the payload buffer types the module supports.
pub trait Buffer {

}

/// Hardware data-field size codes of the supported payload buffers.
#[derive(PartialEq, Eq, Structural, Clone, Copy, Debug)]
pub enum Sizes {
    /// Eight data bytes.
    BufferSize8,
}

impl Sizes {
    /// Number of payload bytes.
    pub open spec fn spec_bytes(self) -> nat {
        match self {
            Sizes::BufferSize8 => 8,
        }
    }

    /// Register value of the data-field size (RXESC.F0DS, RXESC.F1DS, TXESC.TBDS).
    pub open spec fn spec_code(self) -> u8 {
        match self {
            Sizes::BufferSize8 => 0,
        }
    }

    /// Register value of the data-field size.
    pub fn code(&self) -> (r: u8)
        ensures
            r == self.spec_code(),
    {
        match self {
            Sizes::BufferSize8 => 0,
        }
    }
}

/// A fixed-size payload buffer of a frame.
pub trait CanBuffer: Buffer + Sized {
    /// Size of the buffer in bytes.
    spec fn spec_buffer_size() -> nat;

    /// The hardware size code of the buffer type.
    spec fn spec_size() -> Sizes;

    /// The bytes held.
    spec fn spec_data(&self) -> Seq<u8>;

    /// A buffer always holds exactly its size in bytes: at least 8, at most 64.
    proof fn lemma_data_len(&self)
        ensures
            self.spec_data().len() == Self::spec_buffer_size(),
            8 <= Self::spec_buffer_size() <= 64,
    ;

    /// All bytes of the buffer.
    fn as_slice(&self) -> (r: &[u8])
        ensures
            r@ == self.spec_data(),
    ;

    /// Size of the buffer in bytes.
    fn buffer_len() -> (r: usize)
        ensures
            r == Self::spec_buffer_size(),
    ;

    /// The hardware size code of this buffer type.
    fn buffer_size() -> (r: Sizes)
        ensures
            r == Self::spec_size(),
            r.spec_bytes() == Self::spec_buffer_size(),
    ;

    /// A buffer of zero bytes.
    fn zeroed() -> (r: Self)
        ensures
            r.spec_data() == Seq::new(Self::spec_buffer_size(), |i: int| 0u8),
    ;

    /// Byte `i`.
    fn byte(&self, i: usize) -> (r: u8)
        requires
            i < Self::spec_buffer_size(),
        ensures
            r == self.spec_data()[i as int],
    ;

    /// Replace byte `i`.
    fn set_byte(&mut self, i: usize, v: u8)
        requires
            i < Self::spec_buffer_size(),
        ensures
            final(self).spec_data() == old(self).spec_data().update(i as int, v),
    ;
}

/// Eight-byte payload buffer.
pub struct BufferSize8 {
    data: [u8; 8],
}

impl BufferSize8 {
    /// A buffer holding `data`.
    pub fn from_array(data: [u8; 8]) -> (r: Self)
        ensures
            r.spec_data() == data@,
    {
        BufferSize8 { data }
    }
}

impl Buffer for BufferSize8 {

}

impl CanBuffer for BufferSize8 {
    open spec fn spec_buffer_size() -> nat {
        8
    }

    open spec fn spec_size() -> Sizes {
        Sizes::BufferSize8
    }

    closed spec fn spec_data(&self) -> Seq<u8> {
        self.data@
    }

    proof fn lemma_data_len(&self) {
    }

    fn as_slice(&self) -> (r: &[u8]) {
        broadcast use vstd::array::axiom_spec_array_as_slice;

        self.data.as_slice()
    }

    fn buffer_len() -> (r: usize) {
        8
    }

    fn buffer_size() -> (r: Sizes) {
        Sizes::BufferSize8
    }

    fn zeroed() -> (r: Self) {
        let r = BufferSize8 { data: [0u8; 8] };
        assert(r.data@ =~= Seq::new(8, |i: int| 0u8));
        r
    }

    fn byte(&self, i: usize) -> (r: u8) {
        self.data[i]
    }

    fn set_byte(&mut self, i: usize, v: u8) {
        self.data[i] = v;
    }
}

} // verus!
