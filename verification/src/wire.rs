//! The wire value codec: how fixed-size values are laid out in guest memory.
//!
//! Every wire value has a byte width, an array stride, a decoding of an
//! exact-width window and a way to store itself into such a window.
//! Integers are little-endian.

use vstd::arithmetic::div_mod::{lemma_fundamental_div_mod, lemma_fundamental_div_mod_converse};
use vstd::prelude::*;

verus! {

/// `window` with the bytes from `at` on replaced by `bytes`.
pub open spec fn splice(window: Seq<u8>, at: int, bytes: Seq<u8>) -> Seq<u8>
    recommends
        0 <= at,
        at + bytes.len() <= window.len(),
{
    window.subrange(0, at) + bytes + window.subrange(at + bytes.len(), window.len() as int)
}

/// The bytes of a spliced window, position by position.
pub proof fn lemma_splice_index(window: Seq<u8>, at: int, bytes: Seq<u8>)
    requires
        0 <= at,
        at + bytes.len() <= window.len(),
    ensures
        splice(window, at, bytes).len() == window.len(),
        forall|i: int|
            0 <= i < window.len() ==> #[trigger] splice(window, at, bytes)[i] == if at <= i < at
                + bytes.len() {
                bytes[i - at]
            } else {
                window[i]
            },
{
}

/// A value with a fixed layout in guest memory.
pub trait WasmValue: Sized + Copy {
    /// Width of the value in bytes.
    const SIZE: u32;

    /// Distance in bytes between two neighbours in an array of this type.
    const ARRAY_OFFSET: u32;

    /// `SIZE`, for contracts.
    spec fn size() -> nat;

    /// `ARRAY_OFFSET`, for contracts.
    spec fn stride() -> nat;

    /// The value that an exact-width window holds.
    spec fn decode(bytes: Seq<u8>) -> Self
        recommends
            bytes.len() == Self::SIZE,
    ;

    /// The window after this value has been stored into it. Padding keeps
    /// what the window held before.
    spec fn store(self, window: Seq<u8>) -> Seq<u8>
        recommends
            window.len() == Self::SIZE,
    ;

    /// Whether the value has an encoding. Only a union read from an
    /// unrecognized tag has none.
    spec fn writable(self) -> bool;

    /// The value that stands in where an operation has nothing to return.
    spec fn blank() -> Self;

    /// The constants are what the contracts say, the stride covers the
    /// value, and the value is not empty.
    proof fn lemma_layout()
        ensures
            Self::SIZE == Self::size(),
            Self::ARRAY_OFFSET == Self::stride(),
            0 < Self::SIZE <= Self::ARRAY_OFFSET,
    ;

    /// Storing keeps the window's width.
    proof fn lemma_store_len(self, window: Seq<u8>)
        requires
            window.len() == Self::SIZE,
        ensures
            self.store(window).len() == Self::SIZE,
    ;

    /// Reading back what was stored gives the stored value.
    proof fn lemma_store_then_decode(self, window: Seq<u8>)
        requires
            window.len() == Self::SIZE,
            self.writable(),
        ensures
            Self::decode(self.store(window)) == self,
    ;

    /// Storing what a window holds into that window leaves it as it was.
    proof fn lemma_decode_then_store(window: Seq<u8>)
        requires
            window.len() == Self::SIZE,
            Self::decode(window).writable(),
        ensures
            Self::decode(window).store(window) == window,
    ;

    /// The value that stands in where an operation has nothing to return.
    fn blank_value() -> (value: Self)
        ensures
            value == Self::blank(),
            value.writable(),
    ;

    /// Reads the value from an exact-width window.
    fn read(mem: &[u8]) -> (value: Self)
        requires
            mem.len() == Self::SIZE,
        ensures
            value == Self::decode(mem@),
    ;

    /// Stores the value into the `SIZE` bytes of `mem` that start at `at`.
    fn write_at(self, mem: &mut [u8], at: usize)
        requires
            at + Self::SIZE <= old(mem).len(),
            self.writable(),
        ensures
            final(mem)@.len() == old(mem)@.len(),
            final(mem)@ == splice(
                old(mem)@,
                at as int,
                self.store(old(mem)@.subrange(at as int, at + Self::SIZE)),
            ),
    ;

    /// Stores the value into an exact-width window.
    fn write(self, mem: &mut [u8])
        requires
            old(mem).len() == Self::SIZE,
            self.writable(),
        ensures
            final(mem)@ == self.store(old(mem)@),
    {
        proof {
            self.lemma_store_len(mem@);
            assert(mem@.subrange(0, Self::SIZE as int) =~= mem@);
        }
        self.write_at(mem, 0);
        assert(mem@ =~= self.store(old(mem)@));
    }
}

/// The value of one byte.
pub open spec fn u8_from_le(bytes: Seq<u8>) -> u8
    recommends
        bytes.len() == 1,
{
    bytes[0]
}

/// The encoding of an 8-bit integer.
pub open spec fn u8_to_le(value: u8) -> Seq<u8> {
    seq![value]
}

/// The value of two bytes, least significant first.
pub open spec fn u16_from_le(bytes: Seq<u8>) -> u16
    recommends
        bytes.len() == 2,
{
    (bytes[0] + 0x100 * bytes[1]) as u16
}

/// The encoding of a 16-bit integer.
pub open spec fn u16_to_le(value: u16) -> Seq<u8> {
    seq![(value % 0x100) as u8, (value / 0x100) as u8]
}

/// The value of four bytes, least significant first.
pub open spec fn u32_from_le(bytes: Seq<u8>) -> u32
    recommends
        bytes.len() == 4,
{
    (u16_from_le(bytes.subrange(0, 2)) + 0x1_0000 * u16_from_le(bytes.subrange(2, 4))) as u32
}

/// The encoding of a 32-bit integer.
pub open spec fn u32_to_le(value: u32) -> Seq<u8> {
    u16_to_le((value % 0x1_0000) as u16) + u16_to_le((value / 0x1_0000) as u16)
}

/// The value of eight bytes, least significant first.
pub open spec fn u64_from_le(bytes: Seq<u8>) -> u64
    recommends
        bytes.len() == 8,
{
    (u32_from_le(bytes.subrange(0, 4)) + 0x1_0000_0000 * u32_from_le(bytes.subrange(4, 8))) as u64
}

/// The encoding of a 64-bit integer.
pub open spec fn u64_to_le(value: u64) -> Seq<u8> {
    u32_to_le((value % 0x1_0000_0000) as u32) + u32_to_le((value / 0x1_0000_0000) as u32)
}

/// The signed reading of an 8-bit pattern.
pub open spec fn i8_of_bits(bits: u8) -> i8 {
    if bits < 0x80 {
        bits as i8
    } else {
        (bits - 0x100) as i8
    }
}

/// The 8-bit pattern of a signed value.
pub open spec fn bits_of_i8(value: i8) -> u8 {
    if value >= 0 {
        value as u8
    } else {
        (value + 0x100) as u8
    }
}

/// The signed reading of a 16-bit pattern.
pub open spec fn i16_of_bits(bits: u16) -> i16 {
    if bits < 0x8000 {
        bits as i16
    } else {
        (bits - 0x1_0000) as i16
    }
}

/// The 16-bit pattern of a signed value.
pub open spec fn bits_of_i16(value: i16) -> u16 {
    if value >= 0 {
        value as u16
    } else {
        (value + 0x1_0000) as u16
    }
}

/// The signed reading of a 32-bit pattern.
pub open spec fn i32_of_bits(bits: u32) -> i32 {
    if bits < 0x8000_0000 {
        bits as i32
    } else {
        (bits - 0x1_0000_0000) as i32
    }
}

/// The 32-bit pattern of a signed value.
pub open spec fn bits_of_i32(value: i32) -> u32 {
    if value >= 0 {
        value as u32
    } else {
        (value + 0x1_0000_0000) as u32
    }
}

/// The signed reading of a 64-bit pattern.
pub open spec fn i64_of_bits(bits: u64) -> i64 {
    if bits < 0x8000_0000_0000_0000 {
        bits as i64
    } else {
        (bits - 0x1_0000_0000_0000_0000) as i64
    }
}

/// The 64-bit pattern of a signed value.
pub open spec fn bits_of_i64(value: i64) -> u64 {
    if value >= 0 {
        value as u64
    } else {
        (value + 0x1_0000_0000_0000_0000) as u64
    }
}

/// A number below `base * base` and its two digits determine each other.
pub proof fn lemma_digits(low: int, high: int, base: int)
    requires
        0 < base,
        0 <= low < base,
        0 <= high,
    ensures
        (low + base * high) % base == low,
        (low + base * high) / base == high,
{
    assert(low + base * high == high * base + low) by (nonlinear_arith);
    lemma_fundamental_div_mod_converse(low + base * high, base, high, low);
}

/// Two bytes and the 16-bit integer they encode determine each other.
pub proof fn lemma_u16_le(value: u16, bytes: Seq<u8>)
    ensures
        u16_to_le(value).len() == 2,
        u16_from_le(u16_to_le(value)) == value,
        bytes.len() == 2 ==> u16_to_le(u16_from_le(bytes)) == bytes,
{
    lemma_fundamental_div_mod(value as int, 0x100);
    if bytes.len() == 2 {
        lemma_digits(bytes[0] as int, bytes[1] as int, 0x100);
        assert(u16_to_le(u16_from_le(bytes)) =~= bytes);
    }
}

/// Four bytes and the 32-bit integer they encode determine each other.
pub proof fn lemma_u32_le(value: u32, bytes: Seq<u8>)
    ensures
        u32_to_le(value).len() == 4,
        u32_from_le(u32_to_le(value)) == value,
        bytes.len() == 4 ==> u32_to_le(u32_from_le(bytes)) == bytes,
{
    let lo = (value % 0x1_0000) as u16;
    let hi = (value / 0x1_0000) as u16;
    lemma_fundamental_div_mod(value as int, 0x1_0000);
    lemma_u16_le(lo, bytes.subrange(0, 2));
    lemma_u16_le(hi, bytes.subrange(2, 4));
    assert(u32_to_le(value).subrange(0, 2) =~= u16_to_le(lo));
    assert(u32_to_le(value).subrange(2, 4) =~= u16_to_le(hi));
    if bytes.len() == 4 {
        let low = u16_from_le(bytes.subrange(0, 2));
        let high = u16_from_le(bytes.subrange(2, 4));
        lemma_digits(low as int, high as int, 0x1_0000);
        assert(u32_to_le(u32_from_le(bytes)) =~= bytes.subrange(0, 2) + bytes.subrange(2, 4));
        assert(bytes.subrange(0, 2) + bytes.subrange(2, 4) =~= bytes);
    }
}

/// Eight bytes and the 64-bit integer they encode determine each other.
pub proof fn lemma_u64_le(value: u64, bytes: Seq<u8>)
    ensures
        u64_to_le(value).len() == 8,
        u64_from_le(u64_to_le(value)) == value,
        bytes.len() == 8 ==> u64_to_le(u64_from_le(bytes)) == bytes,
{
    let lo = (value % 0x1_0000_0000) as u32;
    let hi = (value / 0x1_0000_0000) as u32;
    lemma_fundamental_div_mod(value as int, 0x1_0000_0000);
    lemma_u32_le(lo, bytes.subrange(0, 4));
    lemma_u32_le(hi, bytes.subrange(4, 8));
    assert(u64_to_le(value).subrange(0, 4) =~= u32_to_le(lo));
    assert(u64_to_le(value).subrange(4, 8) =~= u32_to_le(hi));
    if bytes.len() == 8 {
        let low = u32_from_le(bytes.subrange(0, 4));
        let high = u32_from_le(bytes.subrange(4, 8));
        lemma_digits(low as int, high as int, 0x1_0000_0000);
        assert(u64_to_le(u64_from_le(bytes)) =~= bytes.subrange(0, 4) + bytes.subrange(4, 8));
        assert(bytes.subrange(0, 4) + bytes.subrange(4, 8) =~= bytes);
    }
}

/// A bit pattern and its signed reading determine each other, at each width.
pub proof fn lemma_signed_bits(a: u8, b: u16, c: u32, d: u64, e: i8, f: i16, g: i32, h: i64)
    ensures
        bits_of_i8(i8_of_bits(a)) == a,
        bits_of_i16(i16_of_bits(b)) == b,
        bits_of_i32(i32_of_bits(c)) == c,
        bits_of_i64(i64_of_bits(d)) == d,
        i8_of_bits(bits_of_i8(e)) == e,
        i16_of_bits(bits_of_i16(f)) == f,
        i32_of_bits(bits_of_i32(g)) == g,
        i64_of_bits(bits_of_i64(h)) == h,
{
}

/// What a splice leaves of a range that it covers, and of one that it misses.
pub proof fn lemma_splice_subrange(window: Seq<u8>, at: int, bytes: Seq<u8>, from: int, to: int)
    requires
        0 <= at,
        at + bytes.len() <= window.len(),
        0 <= from <= to <= window.len(),
    ensures
        from == at && to == at + bytes.len() ==> splice(window, at, bytes).subrange(from, to)
            == bytes,
        to <= at || at + bytes.len() <= from ==> splice(window, at, bytes).subrange(from, to)
            == window.subrange(from, to),
{
    if from == at && to == at + bytes.len() {
        assert(splice(window, at, bytes).subrange(from, to) =~= bytes);
    }
    if to <= at || at + bytes.len() <= from {
        assert(splice(window, at, bytes).subrange(from, to) =~= window.subrange(from, to));
    }
}

/// A splice into a part of a window is a splice into the window.
pub proof fn lemma_splice_nested(window: Seq<u8>, at: int, width: int, offset: int, bytes: Seq<u8>)
    requires
        0 <= at,
        0 <= width,
        at + width <= window.len(),
        0 <= offset,
        offset + bytes.len() <= width,
    ensures
        splice(window, at + offset, bytes) == splice(
            window,
            at,
            splice(window.subrange(at, at + width), offset, bytes),
        ),
        splice(window, at + offset, bytes).subrange(at, at + width) == splice(
            window.subrange(at, at + width),
            offset,
            bytes,
        ),
{
    let inner = splice(window.subrange(at, at + width), offset, bytes);
    assert(splice(window, at + offset, bytes) =~= splice(window, at, inner));
    assert(splice(window, at + offset, bytes).subrange(at, at + width) =~= inner);
}

/// Of two splices of the same width at the same place, the later one counts.
pub proof fn lemma_splice_twice(window: Seq<u8>, at: int, first: Seq<u8>, second: Seq<u8>)
    requires
        0 <= at,
        first.len() == second.len(),
        at + first.len() <= window.len(),
    ensures
        splice(splice(window, at, first), at, second) == splice(window, at, second),
{
    assert(splice(splice(window, at, first), at, second) =~= splice(window, at, second));
}

/// Two splices side by side are one splice of the two byte strings joined.
pub proof fn lemma_splice_concat(window: Seq<u8>, at: int, first: Seq<u8>, second: Seq<u8>)
    requires
        0 <= at,
        at + first.len() + second.len() <= window.len(),
    ensures
        splice(splice(window, at, first), at + first.len(), second) == splice(
            window,
            at,
            first + second,
        ),
{
    assert(splice(splice(window, at, first), at + first.len(), second) =~= splice(
        window,
        at,
        first + second,
    ));
}

/// Splicing a range's own bytes back leaves the window as it was.
pub proof fn lemma_splice_same(window: Seq<u8>, at: int, width: int)
    requires
        0 <= at,
        0 <= width,
        at + width <= window.len(),
    ensures
        splice(window, at, window.subrange(at, at + width)) == window,
{
    assert(splice(window, at, window.subrange(at, at + width)) =~= window);
}

} // verus!
