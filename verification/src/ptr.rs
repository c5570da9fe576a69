//! The guest memory accessor: typed offsets into the guest's linear memory.
//!
//! A pointer is a bare 32-bit offset. Bounds are not checked when a pointer is
//! made or moved, only when memory is accessed through it.

use std::marker::PhantomData;
use vstd::prelude::*;
use crate::primitives::{get_u32, i32_from_bits, i32_to_bits, put_u32};
use crate::wire::{
    bits_of_i32, i32_of_bits, lemma_u32_le, splice, u32_from_le, u32_to_le, WasmValue,
};

verus! {

/// The guest's linear memory.
pub struct GuestMemory {
    pub bytes: Vec<u8>,
}

impl View for GuestMemory {
    type V = Seq<u8>;

    open spec fn view(&self) -> Seq<u8> {
        self.bytes@
    }
}

impl GuestMemory {
    /// Takes `bytes` as the guest's memory.
    pub fn new(bytes: Vec<u8>) -> (memory: Self)
        ensures
            memory@ == bytes@,
    {
        GuestMemory { bytes }
    }

    /// A memory of `len` zero bytes.
    pub fn zeroed(len: usize) -> (memory: Self)
        ensures
            memory@.len() == len,
            forall|i: int| 0 <= i < len ==> memory@[i] == 0u8,
    {
        GuestMemory { bytes: vec![0u8; len] }
    }

    /// The length of the memory is a machine-sized number.
    pub proof fn lemma_len(&self)
        ensures
            self@.len() <= usize::MAX,
    {
        assert(self.bytes.len() == self@.len());
    }

    /// The number of bytes in the memory.
    pub fn len(&self) -> (len: usize)
        ensures
            len == self@.len(),
    {
        self.bytes.len()
    }

    /// Whether the `len` bytes from `offset` on lie inside the memory.
    pub fn contains_range(&self, offset: u32, len: u64) -> (inside: bool)
        ensures
            inside == (offset + len <= self@.len()),
    {
        let total: usize = self.bytes.len();
        offset as usize <= total && len <= (total - offset as usize) as u64
    }

    /// Copies the `len` bytes from `offset` on out of the memory.
    pub fn read_bytes(&self, offset: usize, len: usize) -> (bytes: Vec<u8>)
        requires
            offset + len <= self@.len(),
        ensures
            bytes@ == self@.subrange(offset as int, offset + len),
    {
        proof {
            self.lemma_len();
        }
        let mut bytes: Vec<u8> = Vec::new();
        let mut i: usize = 0;
        while i < len
            invariant
                i <= len,
                offset + len <= self@.len() <= usize::MAX,
                bytes@ == self@.subrange(offset as int, offset + i),
            decreases len - i,
        {
            bytes.push(self.bytes[offset + i]);
            i = i + 1;
            assert(bytes@ =~= self@.subrange(offset as int, offset + i));
        }
        bytes
    }

    /// Stores one byte at `offset`.
    pub fn write_byte(&mut self, offset: usize, value: u8)
        requires
            offset < old(self)@.len(),
        ensures
            final(self)@ == splice(old(self)@, offset as int, seq![value]),
            final(self)@.len() == old(self)@.len(),
    {
        self.bytes[offset] = value;
        assert(self@ =~= splice(old(self)@, offset as int, seq![value]));
    }

    /// Copies `bytes` into the memory from `offset` on.
    pub fn write_bytes(&mut self, offset: usize, bytes: &[u8])
        requires
            offset + bytes@.len() <= old(self)@.len(),
        ensures
            final(self)@ == splice(old(self)@, offset as int, bytes@),
            final(self)@.len() == old(self)@.len(),
    {
        proof {
            self.lemma_len();
        }
        let mut i: usize = 0;
        while i < bytes.len()
            invariant
                i <= bytes@.len(),
                self@.len() == old(self)@.len() <= usize::MAX,
                offset + bytes@.len() <= self@.len(),
                self@ == splice(old(self)@, offset as int, bytes@.subrange(0, i as int)),
            decreases bytes@.len() - i,
        {
            self.bytes[offset + i] = bytes[i];
            i = i + 1;
            assert(self@ =~= splice(old(self)@, offset as int, bytes@.subrange(0, i as int)));
        }
        assert(bytes@.subrange(0, bytes@.len() as int) =~= bytes@);
    }
}

/// Pointer to a single value in guest memory.
pub struct WasmValuePtr<T: WasmValue> {
    pub offset: u32,
    pub _phantom: PhantomData<T>,
}

/// Pointer to the first element of an array in guest memory.
pub struct WasmSlicePtr<T: WasmValue> {
    pub offset: u32,
    pub _phantom: PhantomData<T>,
}

/// A bounds-checked array of `length` elements that starts at `start`.
pub struct WasmMemorySlice<T: WasmValue> {
    pub start: u32,
    pub length: u32,
    pub _phantom: PhantomData<T>,
}

impl<T: WasmValue> Clone for WasmValuePtr<T> {
    fn clone(&self) -> (copy: Self)
        ensures
            copy == *self,
    {
        *self
    }
}

impl<T: WasmValue> Copy for WasmValuePtr<T> {

}

impl<T: WasmValue> Clone for WasmSlicePtr<T> {
    fn clone(&self) -> (copy: Self)
        ensures
            copy == *self,
    {
        *self
    }
}

impl<T: WasmValue> Copy for WasmSlicePtr<T> {

}

impl<T: WasmValue> Clone for WasmMemorySlice<T> {
    fn clone(&self) -> (copy: Self)
        ensures
            copy == *self,
    {
        *self
    }
}

impl<T: WasmValue> Copy for WasmMemorySlice<T> {

}

impl<T: WasmValue> WasmValuePtr<T> {
    /// The pointer to `offset`.
    pub fn new(offset: u32) -> (ptr: Self)
        ensures
            ptr.offset == offset,
    {
        WasmValuePtr { offset, _phantom: PhantomData }
    }

    /// Whether the pointee lies inside a memory of `memory_len` bytes.
    pub open spec fn in_bounds(self, memory_len: nat) -> bool {
        self.offset + T::SIZE <= memory_len
    }

    /// Whether the pointee lies inside `memory`.
    pub fn is_in_bounds(self, memory: &GuestMemory) -> (inside: bool)
        ensures
            inside == self.in_bounds(memory@.len()),
    {
        memory.contains_range(self.offset, T::SIZE as u64)
    }

    /// Reads the pointee.
    pub fn read(self, memory: &GuestMemory) -> (value: T)
        requires
            self.in_bounds(memory@.len()),
        ensures
            value == T::decode(memory@.subrange(self.offset as int, self.offset + T::SIZE)),
    {
        proof {
            memory.lemma_len();
        }
        let start: usize = self.offset as usize;
        let end: usize = start + T::SIZE as usize;
        T::read(&memory.bytes[start..end])
    }

    /// Stores `value` as the pointee.
    pub fn write(self, memory: &mut GuestMemory, value: T)
        requires
            self.in_bounds(old(memory)@.len()),
            value.writable(),
        ensures
            final(memory)@.len() == old(memory)@.len(),
            final(memory)@ == splice(
                old(memory)@,
                self.offset as int,
                value.store(old(memory)@.subrange(self.offset as int, self.offset + T::SIZE)),
            ),
    {
        value.write_at(memory.bytes.as_mut_slice(), self.offset as usize);
    }

    /// The pointer that a 32-bit WebAssembly integer stands for.
    pub fn from_native(native: i32) -> (ptr: Self)
        ensures
            ptr.offset == bits_of_i32(native),
    {
        WasmValuePtr { offset: i32_to_bits(native), _phantom: PhantomData }
    }

    /// The 32-bit WebAssembly integer that stands for the pointer.
    pub fn to_native(self) -> (native: i32)
        ensures
            native == i32_of_bits(self.offset),
    {
        i32_from_bits(self.offset)
    }
}

impl<T: WasmValue> WasmSlicePtr<T> {
    /// The pointer to `offset`.
    pub fn new(offset: u32) -> (ptr: Self)
        ensures
            ptr.offset == offset,
    {
        WasmSlicePtr { offset, _phantom: PhantomData }
    }

    /// Whether `length` elements from the pointer on lie inside a memory of
    /// `memory_len` bytes.
    pub open spec fn in_bounds(self, memory_len: nat, length: u32) -> bool {
        self.offset + length * T::ARRAY_OFFSET <= memory_len
    }

    /// Whether `length` elements from the pointer on lie inside `memory`.
    pub fn is_in_bounds(self, memory: &GuestMemory, length: u32) -> (inside: bool)
        ensures
            inside == self.in_bounds(memory@.len(), length),
    {
        assert(length * T::ARRAY_OFFSET <= u32::MAX * u32::MAX) by (nonlinear_arith)
            requires
                0 <= length <= u32::MAX,
                0 <= T::ARRAY_OFFSET <= u32::MAX,
        ;
        let bytes: u64 = length as u64 * T::ARRAY_OFFSET as u64;
        memory.contains_range(self.offset, bytes)
    }

    /// The array of `length` elements at the pointer.
    pub fn with(self, memory: &GuestMemory, length: u32) -> (slice: WasmMemorySlice<T>)
        requires
            self.in_bounds(memory@.len(), length),
        ensures
            slice.start == self.offset,
            slice.length == length,
            slice.fits(memory@.len()),
    {
        WasmMemorySlice { start: self.offset, length, _phantom: PhantomData }
    }

    /// The pointer to the element at `index`.
    pub fn get(self, index: u32) -> (ptr: WasmValuePtr<T>)
        requires
            self.offset + index * T::ARRAY_OFFSET <= u32::MAX,
        ensures
            ptr.offset == self.offset + index * T::ARRAY_OFFSET,
    {
        WasmValuePtr { offset: self.add(index).offset, _phantom: PhantomData }
    }

    /// The pointer moved on by `count` elements.
    pub fn add(self, count: u32) -> (ptr: Self)
        requires
            self.offset + count * T::ARRAY_OFFSET <= u32::MAX,
        ensures
            ptr.offset == self.offset + count * T::ARRAY_OFFSET,
    {
        assert(0 <= count * T::ARRAY_OFFSET) by (nonlinear_arith)
            requires
                0 <= count,
                0 <= T::ARRAY_OFFSET,
        ;
        let step: u64 = count as u64 * T::ARRAY_OFFSET as u64;
        WasmSlicePtr { offset: (self.offset as u64 + step) as u32, _phantom: PhantomData }
    }

    /// The pointer that a 32-bit WebAssembly integer stands for.
    pub fn from_native(native: i32) -> (ptr: Self)
        ensures
            ptr.offset == bits_of_i32(native),
    {
        WasmSlicePtr { offset: i32_to_bits(native), _phantom: PhantomData }
    }

    /// The 32-bit WebAssembly integer that stands for the pointer.
    pub fn to_native(self) -> (native: i32)
        ensures
            native == i32_of_bits(self.offset),
    {
        i32_from_bits(self.offset)
    }
}

impl<T: WasmValue> WasmMemorySlice<T> {
    /// Whether the whole array lies inside a memory of `memory_len` bytes.
    pub open spec fn fits(self, memory_len: nat) -> bool {
        self.start + self.length * T::ARRAY_OFFSET <= memory_len
    }

    /// Whether the element at `index` lies inside the array.
    pub open spec fn holds(self, index: u32) -> bool {
        index * T::ARRAY_OFFSET + T::SIZE <= self.length * T::ARRAY_OFFSET
    }

    /// Where in memory the element at `index` starts.
    pub open spec fn position(self, index: u32) -> int {
        self.start + index * T::ARRAY_OFFSET
    }

    /// The element at `index` in a memory that holds `memory`.
    pub open spec fn element(self, memory: Seq<u8>, index: u32) -> T {
        T::decode(memory.subrange(self.position(index), self.position(index) + T::SIZE))
    }

    /// The elements of the array, in a memory that holds `memory`.
    pub open spec fn elements(self, memory: Seq<u8>) -> Seq<T> {
        Seq::new(self.length as nat, |i: int| self.element(memory, i as u32))
    }

    /// Every index below the length is an element of the array.
    pub proof fn lemma_holds(self, index: u32)
        requires
            index < self.length,
        ensures
            self.holds(index),
    {
        T::lemma_layout();
        assert((index + 1) * T::ARRAY_OFFSET <= self.length * T::ARRAY_OFFSET)
            by (nonlinear_arith)
            requires
                index + 1 <= self.length,
                0 <= T::ARRAY_OFFSET,
        ;
        assert((index + 1) * T::ARRAY_OFFSET == index * T::ARRAY_OFFSET + T::ARRAY_OFFSET)
            by (nonlinear_arith);
    }

    /// Whether the element at `index` lies inside the array.
    pub fn has(&self, index: u32) -> (inside: bool)
        ensures
            inside == self.holds(index),
    {
        assert(index * T::ARRAY_OFFSET <= u32::MAX * u32::MAX && self.length * T::ARRAY_OFFSET
            <= u32::MAX * u32::MAX) by (nonlinear_arith)
            requires
                0 <= index <= u32::MAX,
                0 <= self.length <= u32::MAX,
                0 <= T::ARRAY_OFFSET <= u32::MAX,
        ;
        let at: u64 = index as u64 * T::ARRAY_OFFSET as u64;
        let end: u64 = self.length as u64 * T::ARRAY_OFFSET as u64;
        at + T::SIZE as u64 <= end
    }

    /// Reads the element at `index`.
    pub fn read(&self, memory: &GuestMemory, index: u32) -> (value: T)
        requires
            self.fits(memory@.len()),
            self.holds(index),
        ensures
            value == self.element(memory@, index),
    {
        assert(0 <= index * T::ARRAY_OFFSET) by (nonlinear_arith)
            requires
                0 <= index,
                0 <= T::ARRAY_OFFSET,
        ;
        proof {
            memory.lemma_len();
        }
        let start: usize = self.start as usize + index as usize * T::ARRAY_OFFSET as usize;
        let end: usize = start + T::SIZE as usize;
        T::read(&memory.bytes[start..end])
    }

    /// Reads every element of the array.
    pub fn read_all(&self, memory: &GuestMemory) -> (values: Vec<T>)
        requires
            self.fits(memory@.len()),
        ensures
            values@ == self.elements(memory@),
    {
        let mut values: Vec<T> = Vec::new();
        let mut i: u32 = 0;
        while i < self.length
            invariant
                i <= self.length,
                self.fits(memory@.len()),
                values@.len() == i,
                forall|j: int| 0 <= j < i ==> values@[j] == self.element(memory@, j as u32),
            decreases self.length - i,
        {
            proof {
                self.lemma_holds(i);
            }
            values.push(self.read(memory, i));
            i = i + 1;
        }
        assert(values@ =~= self.elements(memory@));
        values
    }

    /// Stores the first values of `values`, as many as the array has
    /// elements, or all of them where they are fewer. Returns how many were
    /// stored.
    pub fn write_all(&self, memory: &mut GuestMemory, values: &Vec<T>) -> (count: u32)
        requires
            self.fits(old(memory)@.len()),
            forall|i: int| 0 <= i < values@.len() ==> (#[trigger] values@[i]).writable(),
        ensures
            count == if values@.len() < self.length {
                values@.len()
            } else {
                self.length as nat
            },
            final(memory)@.len() == old(memory)@.len(),
            final(memory)@ == stored(old(memory)@, self.start as int, values@, count as nat),
    {
        let ghost start = memory@;
        let mut i: u32 = 0;
        while i < self.length && (i as usize) < values.len()
            invariant
                i <= self.length,
                i <= values@.len(),
                self.fits(start.len()),
                memory@.len() == start.len(),
                forall|j: int| 0 <= j < values@.len() ==> (#[trigger] values@[j]).writable(),
                memory@ == stored(start, self.start as int, values@, i as nat),
            decreases self.length - i,
        {
            proof {
                self.lemma_holds(i);
            }
            self.write(memory, i, values[i as usize]);
            i = i + 1;
        }
        i
    }

    /// Stores `value` as the element at `index`.
    pub fn write(&self, memory: &mut GuestMemory, index: u32, value: T)
        requires
            self.fits(old(memory)@.len()),
            self.holds(index),
            value.writable(),
        ensures
            final(memory)@.len() == old(memory)@.len(),
            final(memory)@ == splice(
                old(memory)@,
                self.position(index),
                value.store(
                    old(memory)@.subrange(self.position(index), self.position(index) + T::SIZE),
                ),
            ),
    {
        assert(0 <= index * T::ARRAY_OFFSET) by (nonlinear_arith)
            requires
                0 <= index,
                0 <= T::ARRAY_OFFSET,
        ;
        proof {
            memory.lemma_len();
        }
        let start: usize = self.start as usize + index as usize * T::ARRAY_OFFSET as usize;
        value.write_at(memory.bytes.as_mut_slice(), start);
    }
}

/// The memory after the first `count` values were stored one behind the
/// other, a stride apart, from `base` on.
pub open spec fn stored<T: WasmValue>(
    memory: Seq<u8>,
    base: int,
    values: Seq<T>,
    count: nat,
) -> Seq<u8>
    recommends
        count <= values.len(),
    decreases count,
{
    if count == 0 {
        memory
    } else {
        let before = stored(memory, base, values, (count - 1) as nat);
        let at = base + (count - 1) * T::ARRAY_OFFSET;
        splice(before, at, values[count - 1].store(before.subrange(at, at + T::SIZE)))
    }
}

/// Storing values from `base` on keeps the memory's length, and changes no
/// byte before `base` nor behind the last value.
pub proof fn lemma_stored_frame<T: WasmValue>(
    memory: Seq<u8>,
    base: int,
    values: Seq<T>,
    count: nat,
)
    requires
        0 <= base,
        count <= values.len(),
        base + count * T::ARRAY_OFFSET <= memory.len(),
    ensures
        stored(memory, base, values, count).len() == memory.len(),
        forall|i: int|
            0 <= i < memory.len() && !(base <= i < base + count * T::ARRAY_OFFSET)
                ==> #[trigger] stored(memory, base, values, count)[i] == memory[i],
    decreases count,
{
    if count > 0 {
        let less = (count - 1) as nat;
        T::lemma_layout();
        assert(less * T::ARRAY_OFFSET + T::ARRAY_OFFSET == count * T::ARRAY_OFFSET)
            by (nonlinear_arith)
            requires
                less + 1 == count,
        ;
        assert(0 <= less * T::ARRAY_OFFSET) by (nonlinear_arith);
        lemma_stored_frame(memory, base, values, less);
        let before = stored(memory, base, values, less);
        let at = base + less * T::ARRAY_OFFSET;
        values[less as int].lemma_store_len(before.subrange(at, at + T::SIZE));
    }
}

impl<T: WasmValue> WasmValue for WasmValuePtr<T> {
    const SIZE: u32 = 4;

    const ARRAY_OFFSET: u32 = 4;

    open spec fn size() -> nat {
        4
    }

    open spec fn stride() -> nat {
        4
    }

    open spec fn decode(bytes: Seq<u8>) -> Self {
        WasmValuePtr { offset: u32_from_le(bytes), _phantom: PhantomData }
    }

    open spec fn store(self, window: Seq<u8>) -> Seq<u8> {
        u32_to_le(self.offset)
    }

    open spec fn writable(self) -> bool {
        true
    }

    open spec fn blank() -> Self {
        WasmValuePtr { offset: 0, _phantom: PhantomData }
    }

    proof fn lemma_layout() {
        assert(Self::SIZE == 4 && Self::size() == 4);
        assert(Self::ARRAY_OFFSET == 4 && Self::stride() == 4);
    }

    proof fn lemma_store_len(self, window: Seq<u8>) {
        lemma_u32_le(self.offset, window);
    }

    proof fn lemma_store_then_decode(self, window: Seq<u8>) {
        lemma_u32_le(self.offset, window);
    }

    proof fn lemma_decode_then_store(window: Seq<u8>) {
        lemma_u32_le(0, window);
    }

    fn blank_value() -> (value: Self) {
        WasmValuePtr { offset: 0, _phantom: PhantomData }
    }

    fn read(mem: &[u8]) -> (value: Self) {
        assert(mem@.subrange(0, 4) =~= mem@);
        WasmValuePtr { offset: get_u32(mem, 0), _phantom: PhantomData }
    }

    fn write_at(self, mem: &mut [u8], at: usize) {
        put_u32(mem, at, self.offset);
    }
}

impl<T: WasmValue> WasmValue for WasmSlicePtr<T> {
    const SIZE: u32 = 4;

    const ARRAY_OFFSET: u32 = 4;

    open spec fn size() -> nat {
        4
    }

    open spec fn stride() -> nat {
        4
    }

    open spec fn decode(bytes: Seq<u8>) -> Self {
        WasmSlicePtr { offset: u32_from_le(bytes), _phantom: PhantomData }
    }

    open spec fn store(self, window: Seq<u8>) -> Seq<u8> {
        u32_to_le(self.offset)
    }

    open spec fn writable(self) -> bool {
        true
    }

    open spec fn blank() -> Self {
        WasmSlicePtr { offset: 0, _phantom: PhantomData }
    }

    proof fn lemma_layout() {
        assert(Self::SIZE == 4 && Self::size() == 4);
        assert(Self::ARRAY_OFFSET == 4 && Self::stride() == 4);
    }

    proof fn lemma_store_len(self, window: Seq<u8>) {
        lemma_u32_le(self.offset, window);
    }

    proof fn lemma_store_then_decode(self, window: Seq<u8>) {
        lemma_u32_le(self.offset, window);
    }

    proof fn lemma_decode_then_store(window: Seq<u8>) {
        lemma_u32_le(0, window);
    }

    fn blank_value() -> (value: Self) {
        WasmSlicePtr { offset: 0, _phantom: PhantomData }
    }

    fn read(mem: &[u8]) -> (value: Self) {
        assert(mem@.subrange(0, 4) =~= mem@);
        WasmSlicePtr { offset: get_u32(mem, 0), _phantom: PhantomData }
    }

    fn write_at(self, mem: &mut [u8], at: usize) {
        put_u32(mem, at, self.offset);
    }
}

} // verus!
