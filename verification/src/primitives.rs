//! The wire layout of the primitive integers.

use vstd::prelude::*;
use crate::wire::{
    bits_of_i16, bits_of_i32, bits_of_i64, bits_of_i8, i16_of_bits, i32_of_bits, i64_of_bits,
    i8_of_bits, lemma_signed_bits, lemma_u16_le, lemma_u32_le, lemma_u64_le, splice, u16_from_le,
    u16_to_le, u32_from_le, u32_to_le, u64_from_le, u64_to_le, u8_from_le, u8_to_le, WasmValue,
};

verus! {

/// Reads the 16-bit integer that starts at `at`.
pub fn get_u16(mem: &[u8], at: usize) -> (value: u16)
    requires
        at + 2 <= mem.len(),
    ensures
        value == u16_from_le(mem@.subrange(at as int, at + 2)),
{
    let lo: u16 = mem[at] as u16;
    let hi: u16 = mem[at + 1] as u16;
    lo + 0x100 * hi
}

/// Reads the 32-bit integer that starts at `at`.
pub fn get_u32(mem: &[u8], at: usize) -> (value: u32)
    requires
        at + 4 <= mem.len(),
    ensures
        value == u32_from_le(mem@.subrange(at as int, at + 4)),
{
    let lo: u32 = get_u16(mem, at) as u32;
    let hi: u32 = get_u16(mem, at + 2) as u32;
    proof {
        let window = mem@.subrange(at as int, at + 4);
        assert(window.subrange(0, 2) =~= mem@.subrange(at as int, at + 2));
        assert(window.subrange(2, 4) =~= mem@.subrange(at + 2, at + 4));
    }
    lo + 0x1_0000 * hi
}

/// Reads the 64-bit integer that starts at `at`.
pub fn get_u64(mem: &[u8], at: usize) -> (value: u64)
    requires
        at + 8 <= mem.len(),
    ensures
        value == u64_from_le(mem@.subrange(at as int, at + 8)),
{
    let lo: u64 = get_u32(mem, at) as u64;
    let hi: u64 = get_u32(mem, at + 4) as u64;
    proof {
        let window = mem@.subrange(at as int, at + 8);
        assert(window.subrange(0, 4) =~= mem@.subrange(at as int, at + 4));
        assert(window.subrange(4, 8) =~= mem@.subrange(at + 4, at + 8));
    }
    lo + 0x1_0000_0000 * hi
}

/// Stores a 16-bit integer into the two bytes that start at `at`.
pub fn put_u16(mem: &mut [u8], at: usize, value: u16)
    requires
        at + 2 <= old(mem).len(),
    ensures
        final(mem)@.len() == old(mem)@.len(),
        final(mem)@ == splice(old(mem)@, at as int, u16_to_le(value)),
{
    mem[at] = (value % 0x100) as u8;
    mem[at + 1] = (value / 0x100) as u8;
    assert(mem@ =~= splice(old(mem)@, at as int, u16_to_le(value)));
}

/// Stores a 32-bit integer into the four bytes that start at `at`.
pub fn put_u32(mem: &mut [u8], at: usize, value: u32)
    requires
        at + 4 <= old(mem).len(),
    ensures
        final(mem)@.len() == old(mem)@.len(),
        final(mem)@ == splice(old(mem)@, at as int, u32_to_le(value)),
{
    put_u16(mem, at, (value % 0x1_0000) as u16);
    put_u16(mem, at + 2, (value / 0x1_0000) as u16);
    assert(mem@ =~= splice(old(mem)@, at as int, u32_to_le(value)));
}

/// Stores a 64-bit integer into the eight bytes that start at `at`.
pub fn put_u64(mem: &mut [u8], at: usize, value: u64)
    requires
        at + 8 <= old(mem).len(),
    ensures
        final(mem)@.len() == old(mem)@.len(),
        final(mem)@ == splice(old(mem)@, at as int, u64_to_le(value)),
{
    proof {
        lemma_u32_le((value % 0x1_0000_0000) as u32, Seq::empty());
        lemma_u32_le((value / 0x1_0000_0000) as u32, Seq::empty());
    }
    put_u32(mem, at, (value % 0x1_0000_0000) as u32);
    put_u32(mem, at + 4, (value / 0x1_0000_0000) as u32);
    assert(mem@ =~= splice(old(mem)@, at as int, u64_to_le(value)));
}

/// The signed value of an 8-bit pattern.
pub fn i8_from_bits(bits: u8) -> (value: i8)
    ensures
        value == i8_of_bits(bits),
{
    if bits < 0x80 {
        bits as i8
    } else {
        ((bits - 0x80) as i8) + i8::MIN
    }
}

/// The 8-bit pattern of a signed value.
pub fn i8_to_bits(value: i8) -> (bits: u8)
    ensures
        bits == bits_of_i8(value),
{
    if value >= 0 {
        value as u8
    } else {
        ((value - i8::MIN) as u8) + 0x80
    }
}

/// The signed value of a 16-bit pattern.
pub fn i16_from_bits(bits: u16) -> (value: i16)
    ensures
        value == i16_of_bits(bits),
{
    if bits < 0x8000 {
        bits as i16
    } else {
        ((bits - 0x8000) as i16) + i16::MIN
    }
}

/// The 16-bit pattern of a signed value.
pub fn i16_to_bits(value: i16) -> (bits: u16)
    ensures
        bits == bits_of_i16(value),
{
    if value >= 0 {
        value as u16
    } else {
        ((value - i16::MIN) as u16) + 0x8000
    }
}

/// The signed value of a 32-bit pattern.
pub fn i32_from_bits(bits: u32) -> (value: i32)
    ensures
        value == i32_of_bits(bits),
{
    if bits < 0x8000_0000 {
        bits as i32
    } else {
        ((bits - 0x8000_0000) as i32) + i32::MIN
    }
}

/// The 32-bit pattern of a signed value.
pub fn i32_to_bits(value: i32) -> (bits: u32)
    ensures
        bits == bits_of_i32(value),
{
    if value >= 0 {
        value as u32
    } else {
        ((value - i32::MIN) as u32) + 0x8000_0000
    }
}

/// The signed value of a 64-bit pattern.
pub fn i64_from_bits(bits: u64) -> (value: i64)
    ensures
        value == i64_of_bits(bits),
{
    if bits < 0x8000_0000_0000_0000 {
        bits as i64
    } else {
        ((bits - 0x8000_0000_0000_0000) as i64) + i64::MIN
    }
}

/// The 64-bit pattern of a signed value.
pub fn i64_to_bits(value: i64) -> (bits: u64)
    ensures
        bits == bits_of_i64(value),
{
    if value >= 0 {
        value as u64
    } else {
        ((value - i64::MIN) as u64) + 0x8000_0000_0000_0000
    }
}

impl WasmValue for u8 {
    const SIZE: u32 = 1;

    const ARRAY_OFFSET: u32 = 1;

    open spec fn size() -> nat {
        1
    }

    open spec fn stride() -> nat {
        1
    }

    open spec fn decode(bytes: Seq<u8>) -> Self {
        u8_from_le(bytes)
    }

    open spec fn store(self, window: Seq<u8>) -> Seq<u8> {
        u8_to_le(self)
    }

    open spec fn writable(self) -> bool {
        true
    }

    open spec fn blank() -> Self {
        0
    }

    proof fn lemma_layout() {
        assert(Self::SIZE == 1 && Self::size() == 1);
        assert(Self::ARRAY_OFFSET == 1 && Self::stride() == 1);
    }

    proof fn lemma_store_len(self, window: Seq<u8>) {
    }

    proof fn lemma_store_then_decode(self, window: Seq<u8>) {
    }

    proof fn lemma_decode_then_store(window: Seq<u8>) {
        assert(u8_to_le(u8_from_le(window)) =~= window);
    }

    fn blank_value() -> (value: Self) {
        0
    }

    fn read(mem: &[u8]) -> (value: Self) {
        mem[0]
    }

    fn write_at(self, mem: &mut [u8], at: usize) {
        mem[at] = self;
        assert(mem@ =~= splice(old(mem)@, at as int, u8_to_le(self)));
    }
}

impl WasmValue for i8 {
    const SIZE: u32 = 1;

    const ARRAY_OFFSET: u32 = 1;

    open spec fn size() -> nat {
        1
    }

    open spec fn stride() -> nat {
        1
    }

    open spec fn decode(bytes: Seq<u8>) -> Self {
        i8_of_bits(u8_from_le(bytes))
    }

    open spec fn store(self, window: Seq<u8>) -> Seq<u8> {
        u8_to_le(bits_of_i8(self))
    }

    open spec fn writable(self) -> bool {
        true
    }

    open spec fn blank() -> Self {
        0
    }

    proof fn lemma_layout() {
        assert(Self::SIZE == 1 && Self::size() == 1);
        assert(Self::ARRAY_OFFSET == 1 && Self::stride() == 1);
    }

    proof fn lemma_store_len(self, window: Seq<u8>) {
    }

    proof fn lemma_store_then_decode(self, window: Seq<u8>) {
        lemma_signed_bits(0, 0, 0, 0, self, 0, 0, 0);
    }

    proof fn lemma_decode_then_store(window: Seq<u8>) {
        lemma_signed_bits(window[0], 0, 0, 0, 0, 0, 0, 0);
        assert(u8_to_le(bits_of_i8(i8_of_bits(window[0]))) =~= window);
    }

    fn blank_value() -> (value: Self) {
        0
    }

    fn read(mem: &[u8]) -> (value: Self) {
        i8_from_bits(mem[0])
    }

    fn write_at(self, mem: &mut [u8], at: usize) {
        mem[at] = i8_to_bits(self);
        assert(mem@ =~= splice(old(mem)@, at as int, u8_to_le(bits_of_i8(self))));
    }
}

impl WasmValue for u16 {
    const SIZE: u32 = 2;

    const ARRAY_OFFSET: u32 = 2;

    open spec fn size() -> nat {
        2
    }

    open spec fn stride() -> nat {
        2
    }

    open spec fn decode(bytes: Seq<u8>) -> Self {
        u16_from_le(bytes)
    }

    open spec fn store(self, window: Seq<u8>) -> Seq<u8> {
        u16_to_le(self)
    }

    open spec fn writable(self) -> bool {
        true
    }

    open spec fn blank() -> Self {
        0
    }

    proof fn lemma_layout() {
        assert(Self::SIZE == 2 && Self::size() == 2);
        assert(Self::ARRAY_OFFSET == 2 && Self::stride() == 2);
    }

    proof fn lemma_store_len(self, window: Seq<u8>) {
        lemma_u16_le(self, window);
    }

    proof fn lemma_store_then_decode(self, window: Seq<u8>) {
        lemma_u16_le(self, window);
    }

    proof fn lemma_decode_then_store(window: Seq<u8>) {
        lemma_u16_le(0, window);
    }

    fn blank_value() -> (value: Self) {
        0
    }

    fn read(mem: &[u8]) -> (value: Self) {
        assert(mem@.subrange(0, 2) =~= mem@);
        get_u16(mem, 0)
    }

    fn write_at(self, mem: &mut [u8], at: usize) {
        put_u16(mem, at, self);
    }
}

impl WasmValue for i16 {
    const SIZE: u32 = 2;

    const ARRAY_OFFSET: u32 = 2;

    open spec fn size() -> nat {
        2
    }

    open spec fn stride() -> nat {
        2
    }

    open spec fn decode(bytes: Seq<u8>) -> Self {
        i16_of_bits(u16_from_le(bytes))
    }

    open spec fn store(self, window: Seq<u8>) -> Seq<u8> {
        u16_to_le(bits_of_i16(self))
    }

    open spec fn writable(self) -> bool {
        true
    }

    open spec fn blank() -> Self {
        0
    }

    proof fn lemma_layout() {
        assert(Self::SIZE == 2 && Self::size() == 2);
        assert(Self::ARRAY_OFFSET == 2 && Self::stride() == 2);
    }

    proof fn lemma_store_len(self, window: Seq<u8>) {
        lemma_u16_le(bits_of_i16(self), window);
    }

    proof fn lemma_store_then_decode(self, window: Seq<u8>) {
        lemma_u16_le(bits_of_i16(self), window);
        lemma_signed_bits(0, 0, 0, 0, 0, self, 0, 0);
    }

    proof fn lemma_decode_then_store(window: Seq<u8>) {
        let bits = u16_from_le(window);
        lemma_u16_le(0, window);
        lemma_signed_bits(0, bits, 0, 0, 0, 0, 0, 0);
    }

    fn blank_value() -> (value: Self) {
        0
    }

    fn read(mem: &[u8]) -> (value: Self) {
        assert(mem@.subrange(0, 2) =~= mem@);
        i16_from_bits(get_u16(mem, 0))
    }

    fn write_at(self, mem: &mut [u8], at: usize) {
        put_u16(mem, at, i16_to_bits(self));
    }
}

impl WasmValue for u32 {
    const SIZE: u32 = 4;

    const ARRAY_OFFSET: u32 = 4;

    open spec fn size() -> nat {
        4
    }

    open spec fn stride() -> nat {
        4
    }

    open spec fn decode(bytes: Seq<u8>) -> Self {
        u32_from_le(bytes)
    }

    open spec fn store(self, window: Seq<u8>) -> Seq<u8> {
        u32_to_le(self)
    }

    open spec fn writable(self) -> bool {
        true
    }

    open spec fn blank() -> Self {
        0
    }

    proof fn lemma_layout() {
        assert(Self::SIZE == 4 && Self::size() == 4);
        assert(Self::ARRAY_OFFSET == 4 && Self::stride() == 4);
    }

    proof fn lemma_store_len(self, window: Seq<u8>) {
        lemma_u32_le(self, window);
    }

    proof fn lemma_store_then_decode(self, window: Seq<u8>) {
        lemma_u32_le(self, window);
    }

    proof fn lemma_decode_then_store(window: Seq<u8>) {
        lemma_u32_le(0, window);
    }

    fn blank_value() -> (value: Self) {
        0
    }

    fn read(mem: &[u8]) -> (value: Self) {
        assert(mem@.subrange(0, 4) =~= mem@);
        get_u32(mem, 0)
    }

    fn write_at(self, mem: &mut [u8], at: usize) {
        put_u32(mem, at, self);
    }
}

impl WasmValue for i32 {
    const SIZE: u32 = 4;

    const ARRAY_OFFSET: u32 = 4;

    open spec fn size() -> nat {
        4
    }

    open spec fn stride() -> nat {
        4
    }

    open spec fn decode(bytes: Seq<u8>) -> Self {
        i32_of_bits(u32_from_le(bytes))
    }

    open spec fn store(self, window: Seq<u8>) -> Seq<u8> {
        u32_to_le(bits_of_i32(self))
    }

    open spec fn writable(self) -> bool {
        true
    }

    open spec fn blank() -> Self {
        0
    }

    proof fn lemma_layout() {
        assert(Self::SIZE == 4 && Self::size() == 4);
        assert(Self::ARRAY_OFFSET == 4 && Self::stride() == 4);
    }

    proof fn lemma_store_len(self, window: Seq<u8>) {
        lemma_u32_le(bits_of_i32(self), window);
    }

    proof fn lemma_store_then_decode(self, window: Seq<u8>) {
        lemma_u32_le(bits_of_i32(self), window);
        lemma_signed_bits(0, 0, 0, 0, 0, 0, self, 0);
    }

    proof fn lemma_decode_then_store(window: Seq<u8>) {
        let bits = u32_from_le(window);
        lemma_u32_le(0, window);
        lemma_signed_bits(0, 0, bits, 0, 0, 0, 0, 0);
    }

    fn blank_value() -> (value: Self) {
        0
    }

    fn read(mem: &[u8]) -> (value: Self) {
        assert(mem@.subrange(0, 4) =~= mem@);
        i32_from_bits(get_u32(mem, 0))
    }

    fn write_at(self, mem: &mut [u8], at: usize) {
        put_u32(mem, at, i32_to_bits(self));
    }
}

impl WasmValue for u64 {
    const SIZE: u32 = 8;

    const ARRAY_OFFSET: u32 = 8;

    open spec fn size() -> nat {
        8
    }

    open spec fn stride() -> nat {
        8
    }

    open spec fn decode(bytes: Seq<u8>) -> Self {
        u64_from_le(bytes)
    }

    open spec fn store(self, window: Seq<u8>) -> Seq<u8> {
        u64_to_le(self)
    }

    open spec fn writable(self) -> bool {
        true
    }

    open spec fn blank() -> Self {
        0
    }

    proof fn lemma_layout() {
        assert(Self::SIZE == 8 && Self::size() == 8);
        assert(Self::ARRAY_OFFSET == 8 && Self::stride() == 8);
    }

    proof fn lemma_store_len(self, window: Seq<u8>) {
        lemma_u64_le(self, window);
    }

    proof fn lemma_store_then_decode(self, window: Seq<u8>) {
        lemma_u64_le(self, window);
    }

    proof fn lemma_decode_then_store(window: Seq<u8>) {
        lemma_u64_le(0, window);
    }

    fn blank_value() -> (value: Self) {
        0
    }

    fn read(mem: &[u8]) -> (value: Self) {
        assert(mem@.subrange(0, 8) =~= mem@);
        get_u64(mem, 0)
    }

    fn write_at(self, mem: &mut [u8], at: usize) {
        put_u64(mem, at, self);
    }
}

impl WasmValue for i64 {
    const SIZE: u32 = 8;

    const ARRAY_OFFSET: u32 = 8;

    open spec fn size() -> nat {
        8
    }

    open spec fn stride() -> nat {
        8
    }

    open spec fn decode(bytes: Seq<u8>) -> Self {
        i64_of_bits(u64_from_le(bytes))
    }

    open spec fn store(self, window: Seq<u8>) -> Seq<u8> {
        u64_to_le(bits_of_i64(self))
    }

    open spec fn writable(self) -> bool {
        true
    }

    open spec fn blank() -> Self {
        0
    }

    proof fn lemma_layout() {
        assert(Self::SIZE == 8 && Self::size() == 8);
        assert(Self::ARRAY_OFFSET == 8 && Self::stride() == 8);
    }

    proof fn lemma_store_len(self, window: Seq<u8>) {
        lemma_u64_le(bits_of_i64(self), window);
    }

    proof fn lemma_store_then_decode(self, window: Seq<u8>) {
        lemma_u64_le(bits_of_i64(self), window);
        lemma_signed_bits(0, 0, 0, 0, 0, 0, 0, self);
    }

    proof fn lemma_decode_then_store(window: Seq<u8>) {
        let bits = u64_from_le(window);
        lemma_u64_le(0, window);
        lemma_signed_bits(0, 0, 0, bits, 0, 0, 0, 0);
    }

    fn blank_value() -> (value: Self) {
        0
    }

    fn read(mem: &[u8]) -> (value: Self) {
        assert(mem@.subrange(0, 8) =~= mem@);
        i64_from_bits(get_u64(mem, 0))
    }

    fn write_at(self, mem: &mut [u8], at: usize) {
        put_u64(mem, at, i64_to_bits(self));
    }
}

} // verus!
