//! Variable-length data between the host and guest memory: string vectors
//! and the buffers of vectored reads and writes.

use vstd::prelude::*;
use crate::adapter::NativeWasiAdapter;
use crate::character_device::same_shape;
use crate::imports::WasiImports;
use crate::native;
use crate::ptr::{stored, GuestMemory, WasmMemorySlice, WasmSlicePtr};
use crate::records::{Event, Subscription};
use crate::string_representation::{wire_strings, StringRepresentation};
use crate::types::{Errno, WasiResult};
use crate::value::WasiValue;
use crate::wire::{
    lemma_splice_concat, lemma_splice_subrange, lemma_u32_le, splice, u32_from_le, u32_to_le,
    WasmValue,
};

verus! {

/// The bytes that the first `count` strings take in a buffer where each is
/// followed by a NUL byte.
pub open spec fn strings_size(strings: Seq<Seq<u8>>, count: nat) -> nat
    recommends
        count <= strings.len(),
    decreases count,
{
    if count == 0 {
        0
    } else {
        strings_size(strings, (count - 1) as nat) + strings[count - 1].len() + 1
    }
}

/// The memory after the first `count` strings were written: for each, in
/// turn, the address of its bytes into the table at `ptrs`, and its bytes
/// with a NUL byte into the buffer at `buf`, behind the one before.
pub open spec fn filled(
    memory: Seq<u8>,
    strings: Seq<Seq<u8>>,
    ptrs: int,
    buf: int,
    count: nat,
) -> Seq<u8>
    recommends
        count <= strings.len(),
    decreases count,
{
    if count == 0 {
        memory
    } else {
        let before = filled(memory, strings, ptrs, buf, (count - 1) as nat);
        let at = buf + strings_size(strings, (count - 1) as nat);
        let pointed = splice(before, ptrs + 4 * (count - 1), u32_to_le(at as u32));
        splice(pointed, at, strings[count - 1] + seq![0u8])
    }
}

/// Whether a table of one address per string at `ptrs` and a buffer of the
/// strings' size at `buf` lie inside a memory of `memory_len` bytes, and
/// every address in the buffer is a 32-bit number.
pub open spec fn strings_fit(memory_len: nat, strings: Seq<Seq<u8>>, ptrs: int, buf: int) -> bool {
    &&& strings_size(strings, strings.len()) <= u32::MAX
    &&& ptrs + 4 * strings.len() <= memory_len
    &&& buf + strings_size(strings, strings.len()) <= memory_len
    &&& buf + strings_size(strings, strings.len()) <= 0x1_0000_0000
}

/// The size grows with the count, by at least one byte for each string.
pub proof fn lemma_strings_size(strings: Seq<Seq<u8>>, few: nat, many: nat)
    requires
        few <= many,
    ensures
        strings_size(strings, few) + (many - few) <= strings_size(strings, many),
    decreases many,
{
    if few < many {
        lemma_strings_size(strings, few, (many - 1) as nat);
    }
}

/// Writing the strings changes no byte outside the table and the buffer,
/// and keeps the memory's length.
pub proof fn lemma_filled_frame(
    memory: Seq<u8>,
    strings: Seq<Seq<u8>>,
    ptrs: int,
    buf: int,
    count: nat,
)
    requires
        0 <= ptrs,
        0 <= buf,
        count <= strings.len(),
        ptrs + 4 * count <= memory.len(),
        buf + strings_size(strings, count) <= memory.len(),
    ensures
        filled(memory, strings, ptrs, buf, count).len() == memory.len(),
        forall|i: int|
            0 <= i < memory.len() && !(ptrs <= i < ptrs + 4 * count) && !(buf <= i < buf
                + strings_size(strings, count)) ==> #[trigger] filled(
                memory,
                strings,
                ptrs,
                buf,
                count,
            )[i] == memory[i],
    decreases count,
{
    if count > 0 {
        let less = (count - 1) as nat;
        lemma_filled_frame(memory, strings, ptrs, buf, less);
        lemma_strings_size(strings, less, count);
        let at = buf + strings_size(strings, less);
        lemma_u32_le(at as u32, Seq::empty());
    }
}

/// With the table and the buffer apart, the table holds for each string the
/// address of its bytes, and the buffer holds the strings one behind the
/// other, each followed by a NUL byte.
pub proof fn lemma_filled_content(
    memory: Seq<u8>,
    strings: Seq<Seq<u8>>,
    ptrs: int,
    buf: int,
    count: nat,
    i: int,
)
    requires
        0 <= ptrs,
        0 <= buf,
        count <= strings.len(),
        ptrs + 4 * count <= memory.len(),
        buf + strings_size(strings, count) <= memory.len(),
        buf + strings_size(strings, count) <= 0x1_0000_0000,
        ptrs + 4 * count <= buf || buf + strings_size(strings, count) <= ptrs,
        0 <= i < count,
    ensures
        u32_from_le(
            filled(memory, strings, ptrs, buf, count).subrange(ptrs + 4 * i, ptrs + 4 * i + 4),
        )
            == buf + strings_size(strings, i as nat),
        filled(memory, strings, ptrs, buf, count).subrange(
            buf + strings_size(strings, i as nat),
            buf + strings_size(strings, (i + 1) as nat),
        ) == strings[i] + seq![0u8],
    decreases count,
{
    let less = (count - 1) as nat;
    let before = filled(memory, strings, ptrs, buf, less);
    let at = buf + strings_size(strings, less);
    let address = u32_to_le(at as u32);
    let pointed = splice(before, ptrs + 4 * less, address);
    let text = strings[less as int] + seq![0u8];
    lemma_strings_size(strings, less, count);
    lemma_strings_size(strings, i as nat, less);
    lemma_strings_size(strings, (i + 1) as nat, count);
    lemma_filled_frame(memory, strings, ptrs, buf, less);
    lemma_u32_le(at as u32, Seq::empty());
    if i < less {
        lemma_filled_content(memory, strings, ptrs, buf, less, i);
        lemma_strings_size(strings, (i + 1) as nat, less);
        lemma_splice_subrange(before, ptrs + 4 * less, address, ptrs + 4 * i, ptrs + 4 * i + 4);
        lemma_splice_subrange(pointed, at, text, ptrs + 4 * i, ptrs + 4 * i + 4);
        lemma_splice_subrange(
            before,
            ptrs + 4 * less,
            address,
            buf + strings_size(strings, i as nat),
            buf + strings_size(strings, (i + 1) as nat),
        );
        lemma_splice_subrange(
            pointed,
            at,
            text,
            buf + strings_size(strings, i as nat),
            buf + strings_size(strings, (i + 1) as nat),
        );
    } else {
        lemma_splice_subrange(before, ptrs + 4 * less, address, ptrs + 4 * i, ptrs + 4 * i + 4);
        lemma_splice_subrange(pointed, at, text, ptrs + 4 * i, ptrs + 4 * i + 4);
        lemma_splice_subrange(pointed, at, text, at, at + text.len());
    }
}

/// Whether the buffers are new buffers for the regions: one for each, as
/// long as the region, of zero bytes.
pub open spec fn fresh(iovecs: Seq<native::iovec>, bufs: Seq<Vec<u8>>) -> bool {
    &&& bufs.len() == iovecs.len()
    &&& forall|i: int| 0 <= i < iovecs.len() ==> (#[trigger] bufs[i])@.len() == iovecs[i].buf_len
    &&& forall|i: int, j: int|
        0 <= i < iovecs.len() && 0 <= j < iovecs[i].buf_len ==> (#[trigger] bufs[i]@[j]) == 0u8
}

/// Whether `at` lies in one of the regions.
pub open spec fn in_regions(iovecs: Seq<native::iovec>, at: int) -> bool {
    exists|i: int|
        0 <= i < iovecs.len() && (#[trigger] iovecs[i]).buf.offset <= at < iovecs[i].buf.offset
            + iovecs[i].buf_len
}

/// Buffers that a host hands back for new buffers are as long as the
/// regions.
pub proof fn lemma_handed_back(iovecs: Seq<native::iovec>, new: Seq<Vec<u8>>, filled: Seq<Vec<u8>>)
    requires
        fresh(iovecs, new),
        same_shape(new, filled),
    ensures
        filled.len() == iovecs.len(),
        forall|i: int| 0 <= i < iovecs.len() ==> (#[trigger] filled[i])@.len() == iovecs[i].buf_len,
{
    assert forall|i: int| 0 <= i < iovecs.len() implies (#[trigger] filled[i])@.len()
        == iovecs[i].buf_len by {
        assert(new[i]@.len() == iovecs[i].buf_len);
    }
}

/// Regions that fit the memory for a read of any size fit it for a read of
/// `size` bytes.
pub proof fn lemma_reached(iovecs: Seq<native::iovec>, memory_len: nat, size: native::size)
    requires
        regions_fit(iovecs, memory_len),
    ensures
        forall|i: int|
            0 <= i < iovecs.len() && visited(iovecs, i, size as nat) ==> region_fits(
                #[trigger] iovecs[i],
                memory_len,
            ),
{
    assert forall|i: int| 0 <= i < iovecs.len() && visited(
        iovecs,
        i,
        size as nat,
    ) implies region_fits(
        #[trigger] iovecs[i],
        memory_len,
    ) by {
        assert(visited(iovecs, i, u32::MAX as nat));
    }
}

/// The bytes of each buffer.
pub open spec fn buffer_bytes(bufs: Seq<Vec<u8>>) -> Seq<Seq<u8>> {
    bufs.map_values(|buf: Vec<u8>| buf@)
}

/// The length of the first `count` regions together.
pub open spec fn regions_size(iovecs: Seq<native::iovec>, count: nat) -> nat
    recommends
        count <= iovecs.len(),
    decreases count,
{
    if count == 0 {
        0
    } else {
        regions_size(iovecs, (count - 1) as nat) + iovecs[count - 1].buf_len as nat
    }
}

/// How many bytes go to region `index` where `size` bytes are handed out to
/// the regions in turn.
pub open spec fn share(iovecs: Seq<native::iovec>, index: int, size: nat) -> nat
    recommends
        0 <= index < iovecs.len(),
{
    let done = regions_size(iovecs, index as nat);
    if size <= done {
        0
    } else if size - done < iovecs[index].buf_len {
        (size - done) as nat
    } else {
        iovecs[index].buf_len as nat
    }
}

/// Whether region `index` is looked at where `size` bytes are handed out:
/// the regions are gone through until one cannot be filled.
pub open spec fn visited(iovecs: Seq<native::iovec>, index: int, size: nat) -> bool
    recommends
        0 <= index < iovecs.len(),
{
    size > 0 && regions_size(iovecs, index as nat) <= size
}

/// Whether the region lies inside a memory of `memory_len` bytes.
pub open spec fn region_fits(iovec: native::iovec, memory_len: nat) -> bool {
    iovec.buf.offset + iovec.buf_len <= memory_len
}

/// The memory after the first `size` bytes of the buffers were copied to the
/// first `count` regions, each buffer to its region, in turn.
pub open spec fn scattered(
    memory: Seq<u8>,
    iovecs: Seq<native::iovec>,
    bufs: Seq<Seq<u8>>,
    size: nat,
    count: nat,
) -> Seq<u8>
    recommends
        count <= iovecs.len(),
        iovecs.len() == bufs.len(),
    decreases count,
{
    if count == 0 {
        memory
    } else {
        let before = scattered(memory, iovecs, bufs, size, (count - 1) as nat);
        let part = share(iovecs, count - 1, size);
        if part == 0 {
            before
        } else {
            splice(
                before,
                iovecs[count - 1].buf.offset as int,
                bufs[count - 1].subrange(0, part as int),
            )
        }
    }
}

/// The regions get `size` bytes together, or what they hold if that is less.
pub proof fn lemma_shares(iovecs: Seq<native::iovec>, size: nat, count: nat)
    requires
        count <= iovecs.len(),
    ensures
        regions_size(iovecs, count) <= size ==> forall|i: int|
            0 <= i < count ==> #[trigger] share(iovecs, i, size) == iovecs[i].buf_len,
        regions_size(iovecs, count) >= size ==> forall|i: int|
            count <= i < iovecs.len() ==> #[trigger] share(iovecs, i, size) == 0,
    decreases iovecs.len() - count,
{
    assert forall|i: int| 0 <= i < count && regions_size(
        iovecs,
        count,
    ) <= size implies #[trigger] share(
        iovecs,
        i,
        size,
    ) == iovecs[i].buf_len by {
        lemma_regions_size(iovecs, (i + 1) as nat, count);
    }
    assert forall|i: int|
        count <= i < iovecs.len() && regions_size(iovecs, count) >= size implies #[trigger] share(
        iovecs,
        i,
        size,
    ) == 0 by {
        lemma_regions_size(iovecs, count, i as nat);
    }
}

/// The size of the regions grows with their count.
pub proof fn lemma_regions_size(iovecs: Seq<native::iovec>, few: nat, many: nat)
    requires
        few <= many,
    ensures
        regions_size(iovecs, few) <= regions_size(iovecs, many),
    decreases many,
{
    if few < many {
        lemma_regions_size(iovecs, few, (many - 1) as nat);
    }
}

/// Copying to the regions keeps the memory's length, and changes no byte
/// outside the regions that got a share.
pub proof fn lemma_scattered_frame(
    memory: Seq<u8>,
    iovecs: Seq<native::iovec>,
    bufs: Seq<Seq<u8>>,
    size: nat,
    count: nat,
)
    requires
        count <= iovecs.len(),
        iovecs.len() == bufs.len(),
        forall|i: int| 0 <= i < count ==> #[trigger] bufs[i].len() == iovecs[i].buf_len,
        forall|i: int|
            0 <= i < count && share(iovecs, i, size) > 0 ==> region_fits(
                #[trigger] iovecs[i],
                memory.len(),
            ),
    ensures
        scattered(memory, iovecs, bufs, size, count).len() == memory.len(),
        forall|at: int|
            0 <= at < memory.len() && (forall|i: int|
                0 <= i < count ==> !((#[trigger] iovecs[i]).buf.offset <= at < iovecs[i].buf.offset
                    + share(iovecs, i, size))) ==> #[trigger] scattered(
                memory,
                iovecs,
                bufs,
                size,
                count,
            )[at] == memory[at],
    decreases count,
{
    if count > 0 {
        let less = (count - 1) as nat;
        lemma_scattered_frame(memory, iovecs, bufs, size, less);
        let before = scattered(memory, iovecs, bufs, size, less);
        let after = scattered(memory, iovecs, bufs, size, count);
        let part = share(iovecs, count - 1, size);
        assert(bufs[count - 1].len() == iovecs[count - 1].buf_len);
        if part > 0 {
            assert(region_fits(iovecs[count - 1], memory.len()));
        }
        assert forall|at: int|
            0 <= at < memory.len() && (forall|i: int|
                0 <= i < count ==> !((#[trigger] iovecs[i]).buf.offset <= at < iovecs[i].buf.offset
                    + share(iovecs, i, size))) implies #[trigger] after[at] == memory[at] by {
            assert(!(iovecs[count - 1].buf.offset <= at < iovecs[count - 1].buf.offset + part));
            assert(forall|i: int|
                0 <= i < less ==> !((#[trigger] iovecs[i]).buf.offset <= at < iovecs[i].buf.offset
                    + share(iovecs, i, size)));
            assert(before[at] == memory[at]);
        }
    }
}

/// The array of `length` regions at `at`.
pub open spec fn iovec_array(
    at: WasmSlicePtr<native::iovec>,
    length: native::size,
) -> WasmMemorySlice<native::iovec> {
    WasmMemorySlice { start: at.offset, length, _phantom: std::marker::PhantomData }
}

/// The array of `length` regions to write from at `at`.
pub open spec fn ciovec_array(
    at: WasmSlicePtr<native::ciovec>,
    length: native::size,
) -> WasmMemorySlice<native::ciovec> {
    WasmMemorySlice { start: at.offset, length, _phantom: std::marker::PhantomData }
}

/// Whether each region that a read of any size can reach lies inside a
/// memory of `memory_len` bytes.
pub open spec fn regions_fit(iovecs: Seq<native::iovec>, memory_len: nat) -> bool {
    forall|i: int|
        0 <= i < iovecs.len() && visited(iovecs, i, u32::MAX as nat) ==> region_fits(
            #[trigger] iovecs[i],
            memory_len,
        )
}

/// Whether each region to write from lies inside a memory of `memory_len`
/// bytes.
pub open spec fn sources_fit(ciovecs: Seq<native::ciovec>, memory_len: nat) -> bool {
    forall|i: int|
        0 <= i < ciovecs.len() ==> (#[trigger] ciovecs[i]).buf.offset + ciovecs[i].buf_len
            <= memory_len
}

/// Whether the buffers hold what the regions hold in a memory that holds
/// `memory`, buffer by buffer.
pub open spec fn gathered(
    ciovecs: Seq<native::ciovec>,
    memory: Seq<u8>,
    data: Seq<Vec<u8>>,
) -> bool {
    &&& data.len() == ciovecs.len()
    &&& forall|i: int|
        0 <= i < ciovecs.len() ==> (#[trigger] data[i])@ == memory.subrange(
            ciovecs[i].buf.offset as int,
            ciovecs[i].buf.offset + ciovecs[i].buf_len,
        )
}

/// The subscriptions that the native subscriptions stand for, or nothing
/// where one of them stands for none.
pub open spec fn subscribed(natives: Seq<native::subscription>) -> Option<Seq<Subscription>> {
    if forall|i: int| 0 <= i < natives.len() ==> Subscription::lift(#[trigger] natives[i]) is Some {
        Some(natives.map_values(|native: native::subscription| Subscription::lift(native).unwrap()))
    } else {
        None
    }
}

/// The array of `length` subscriptions at `at`.
pub open spec fn subscription_array(
    at: WasmSlicePtr<native::subscription>,
    length: native::size,
) -> WasmMemorySlice<native::subscription> {
    WasmMemorySlice { start: at.offset, length, _phantom: std::marker::PhantomData }
}

impl<T: WasiImports> NativeWasiAdapter<T> {
    /// The number of the strings and the size of the buffer that holds
    /// them, each followed by a NUL byte, or nothing where a number does not
    /// fit into 32 bits.
    pub fn checked_sizes(
        strings: &[T::StringRepresentation],
    ) -> (sizes: Option<(native::size, native::size)>)
        ensures
            match sizes {
                Some((count, size)) => {
                    &&& count == strings@.len()
                    &&& size == strings_size(wire_strings(strings@), strings@.len())
                },
                None => strings_size(wire_strings(strings@), strings@.len()) > u32::MAX,
            },
    {
        let ghost wire = wire_strings(strings@);
        let mut size: u32 = 0;
        let mut i: usize = 0;
        while i < strings.len()
            invariant
                i <= strings@.len(),
                wire == wire_strings(strings@),
                size == strings_size(wire, i as nat),
            decreases strings@.len() - i,
        {
            let len: usize = strings[i].as_bytes().len();
            proof {
                assert(wire[i as int] == strings@[i as int].bytes());
                lemma_strings_size(wire, (i + 1) as nat, strings@.len());
            }
            if len >= (u32::MAX - size) as usize {
                return None;
            }
            size = size + len as u32 + 1;
            i = i + 1;
        }
        proof {
            lemma_strings_size(wire, 0, strings@.len());
        }
        Some((i as u32, size))
    }

    /// What the pair of size calls returns: the number of the strings and
    /// the size of the buffer that holds them, each followed by a NUL byte.
    pub fn to_sizes(strings: WasiResult<&[T::StringRepresentation]>) -> (sizes: (
        native::errno,
        native::size,
        native::size,
    ))
        requires
            strings matches Ok(list) ==> strings_size(wire_strings(list@), list@.len())
                <= u32::MAX,
        ensures
            sizes == match strings {
                Ok(list) => (
                    native::ERRNO_SUCCESS,
                    list@.len() as u32,
                    strings_size(wire_strings(list@), list@.len()) as u32,
                ),
                Err(error) => (error.lower(), 0u32, 0u32),
            },
    {
        match strings {
            Ok(list) => match Self::checked_sizes(list) {
                Some((count, size)) => (native::ERRNO_SUCCESS, count, size),
                None => (native::ERRNO_SUCCESS, 0, 0),
            },
            Err(error) => (error.to_native(), 0, 0),
        }
    }

    /// Whether the strings, the table of their addresses at `ptrs` and the
    /// buffer at `buf` fit the memory: what `fill_bufs` asks for.
    pub fn strings_fit_memory(
        strings: &[T::StringRepresentation],
        memory: &GuestMemory,
        ptrs: WasmSlicePtr<WasmSlicePtr<u8>>,
        buf: WasmSlicePtr<u8>,
    ) -> (fit: bool)
        ensures
            fit == strings_fit(
                memory@.len(),
                wire_strings(strings@),
                ptrs.offset as int,
                buf.offset as int,
            ),
    {
        assert(wire_strings(strings@).len() == strings@.len());
        match Self::checked_sizes(strings) {
            Some((count, size)) => {
                memory.contains_range(ptrs.offset, 4 * (count as u64)) && memory.contains_range(
                    buf.offset,
                    size as u64,
                ) && buf.offset as u64 + size as u64 <= 0x1_0000_0000
            },
            None => false,
        }
    }

    /// Writes the strings to guest memory: each with a NUL byte behind it
    /// into the buffer at `buf`, one behind the other, and the address of
    /// each into the table at `ptrs`. An error of the host is handed on and
    /// nothing is written.
    pub fn fill_bufs(
        strings: WasiResult<&[T::StringRepresentation]>,
        memory: &mut GuestMemory,
        ptrs: WasmSlicePtr<WasmSlicePtr<u8>>,
        buf: WasmSlicePtr<u8>,
    ) -> (errno: native::errno)
        requires
            strings matches Ok(list) ==> strings_fit(
                old(memory)@.len(),
                wire_strings(list@),
                ptrs.offset as int,
                buf.offset as int,
            ),
        ensures
            errno == match strings {
                Ok(_) => native::ERRNO_SUCCESS,
                Err(error) => error.lower(),
            },
            final(memory)@ == match strings {
                Ok(list) => filled(
                    old(memory)@,
                    wire_strings(list@),
                    ptrs.offset as int,
                    buf.offset as int,
                    list@.len(),
                ),
                Err(_) => old(memory)@,
            },
    {
        match strings {
            Ok(list) => {
                let ghost wire = wire_strings(list@);
                let ghost start = memory@;
                assert(wire.len() == list@.len());
                proof {
                    WasmSlicePtr::<u8>::lemma_layout();
                    lemma_strings_size(wire, 0, list@.len());
                }
                let table = ptrs.with(memory, list.len() as u32);
                let mut index: u32 = 0;
                let mut i: usize = 0;
                while i < list.len()
                    invariant
                        i <= list@.len(),
                        wire == wire_strings(list@),
                        wire.len() == list@.len(),
                        strings_fit(start.len(), wire, ptrs.offset as int, buf.offset as int),
                        memory@.len() == start.len(),
                        index == strings_size(wire, i as nat),
                        table.start == ptrs.offset,
                        table.length == list@.len(),
                        memory@ == filled(
                            start,
                            wire,
                            ptrs.offset as int,
                            buf.offset as int,
                            i as nat,
                        ),
                    decreases list@.len() - i,
                {
                    let bytes = list[i].as_bytes();
                    proof {
                        assert(wire[i as int] == list@[i as int].bytes());
                        lemma_strings_size(wire, (i + 1) as nat, list@.len());
                        WasmSlicePtr::<u8>::lemma_layout();
                        u8::lemma_layout();
                        table.lemma_holds(i as u32);
                    }
                    let at = buf.add(index);
                    let ghost before = memory@;
                    table.write(memory, i as u32, at);
                    let ghost pointed = memory@;
                    memory.write_bytes(at.offset as usize, bytes);
                    memory.write_byte(at.offset as usize + bytes.len(), 0);
                    proof {
                        assert(table.position(i as u32) == ptrs.offset + 4 * i) by (nonlinear_arith)
                            requires
                                table.position(i as u32) == ptrs.offset + (i as u32)
                                    * WasmSlicePtr::<u8>::ARRAY_OFFSET,
                                WasmSlicePtr::<u8>::ARRAY_OFFSET == 4,
                                i as u32 == i,
                        ;
                        assert(before.subrange(
                            table.position(i as u32),
                            table.position(i as u32) + 4,
                        ).len() == 4);
                        assert(pointed == splice(
                            before,
                            ptrs.offset + 4 * i,
                            u32_to_le(at.offset),
                        ));
                        lemma_u32_le(at.offset, Seq::empty());
                        lemma_splice_concat(pointed, at.offset as int, bytes@, seq![0u8]);
                    }
                    index = index + bytes.len() as u32 + 1;
                    i = i + 1;
                }
                native::ERRNO_SUCCESS
            },
            Err(error) => error.to_native(),
        }
    }

    /// Copies `wasm_buf_len` bytes out of guest memory.
    pub fn read_from_buf(
        memory: &GuestMemory,
        wasm_buf: WasmSlicePtr<u8>,
        wasm_buf_len: native::size,
    ) -> (bytes: Vec<u8>)
        requires
            wasm_buf.offset + wasm_buf_len <= memory@.len(),
        ensures
            bytes@ == memory@.subrange(wasm_buf.offset as int, wasm_buf.offset + wasm_buf_len),
    {
        memory.read_bytes(wasm_buf.offset as usize, wasm_buf_len as usize)
    }

    /// Reads a string out of guest memory. Bytes that the string
    /// representation does not admit are an invalid argument.
    pub fn read_string_from_buf(
        memory: &GuestMemory,
        wasm_buf: WasmSlicePtr<u8>,
        wasm_buf_len: native::size,
    ) -> (result: WasiResult<T::StringRepresentation>)
        requires
            wasm_buf.offset + wasm_buf_len <= memory@.len(),
        ensures
            match result {
                Ok(string) => {
                    &&& T::StringRepresentation::representable(
                        memory@.subrange(wasm_buf.offset as int, wasm_buf.offset + wasm_buf_len),
                    )
                    &&& string.bytes() == memory@.subrange(
                        wasm_buf.offset as int,
                        wasm_buf.offset + wasm_buf_len,
                    )
                },
                Err(error) => {
                    &&& error == Errno::Inval
                    &&& !T::StringRepresentation::representable(
                        memory@.subrange(wasm_buf.offset as int, wasm_buf.offset + wasm_buf_len),
                    )
                },
            },
    {
        let bytes = Self::read_from_buf(memory, wasm_buf, wasm_buf_len);
        match T::StringRepresentation::from_bytes(bytes) {
            Ok(string) => Ok(string),
            Err(_) => Err(Errno::Inval),
        }
    }

    /// Whether the array of regions at `iovs` lies inside the memory, and
    /// each of its regions that a read can reach: what the vectored reads
    /// ask for.
    pub fn regions_fit_memory(
        memory: &GuestMemory,
        iovs: WasmSlicePtr<native::iovec>,
        iovs_len: native::size,
    ) -> (fit: bool)
        ensures
            fit == (iovs.in_bounds(memory@.len(), iovs_len) && regions_fit(
                iovec_array(iovs, iovs_len).elements(memory@),
                memory@.len(),
            )),
    {
        if !iovs.is_in_bounds(memory, iovs_len) {
            return false;
        }
        let array = iovs.with(memory, iovs_len);
        let ghost regions = array.elements(memory@);
        let mut before: u64 = 0;
        let mut i: u32 = 0;
        while i < iovs_len
            invariant
                i <= iovs_len,
                array.fits(memory@.len()),
                array == iovec_array(iovs, iovs_len),
                regions == array.elements(memory@),
                before == regions_size(regions, i as nat),
                before <= u32::MAX,
                forall|j: int|
                    0 <= j < i ==> region_fits(#[trigger] regions[j], memory@.len()),
            decreases iovs_len - i,
        {
            proof {
                array.lemma_holds(i);
            }
            let region = array.read(memory, i);
            assert(region == regions[i as int]);
            if !memory.contains_range(region.buf.offset, region.buf_len as u64) {
                assert(visited(regions, i as int, u32::MAX as nat));
                return false;
            }
            before = before + region.buf_len as u64;
            i = i + 1;
            if before > u32::MAX as u64 {
                proof {
                    assert forall|j: int|
                        0 <= j < regions.len() && visited(
                            regions,
                            j,
                            u32::MAX as nat,
                        ) implies region_fits(#[trigger] regions[j], memory@.len()) by {
                        if j >= i {
                            lemma_regions_size(regions, i as nat, j as nat);
                        }
                    }
                }
                return true;
            }
        }
        true
    }

    /// Whether the array of regions at `iovs` and each of its regions lie
    /// inside the memory: what the vectored writes ask for.
    pub fn sources_fit_memory(
        memory: &GuestMemory,
        iovs: WasmSlicePtr<native::ciovec>,
        iovs_len: native::size,
    ) -> (fit: bool)
        ensures
            fit == (iovs.in_bounds(memory@.len(), iovs_len) && sources_fit(
                ciovec_array(iovs, iovs_len).elements(memory@),
                memory@.len(),
            )),
    {
        if !iovs.is_in_bounds(memory, iovs_len) {
            return false;
        }
        let array = iovs.with(memory, iovs_len);
        let mut i: u32 = 0;
        while i < iovs_len
            invariant
                i <= iovs_len,
                array.fits(memory@.len()),
                array == ciovec_array(iovs, iovs_len),
                forall|j: int|
                    0 <= j < i ==> (#[trigger] array.elements(memory@)[j]).buf.offset
                        + array.elements(memory@)[j].buf_len <= memory@.len(),
            decreases iovs_len - i,
        {
            proof {
                array.lemma_holds(i);
            }
            let region = array.read(memory, i);
            assert(region == array.elements(memory@)[i as int]);
            if !memory.contains_range(region.buf.offset, region.buf_len as u64) {
                return false;
            }
            i = i + 1;
        }
        true
    }

    /// Copies the regions that the array at `iovs` lists out of guest
    /// memory, each into a buffer of its own.
    pub fn read_from_bufs(
        memory: &GuestMemory,
        iovs: WasmSlicePtr<native::ciovec>,
        iovs_len: native::size,
    ) -> (bufs: Vec<Vec<u8>>)
        requires
            iovs.in_bounds(memory@.len(), iovs_len),
            sources_fit(ciovec_array(iovs, iovs_len).elements(memory@), memory@.len()),
        ensures
            gathered(ciovec_array(iovs, iovs_len).elements(memory@), memory@, bufs@),
    {
        let array = iovs.with(memory, iovs_len);
        let ghost regions = array.elements(memory@);
        let mut bufs: Vec<Vec<u8>> = Vec::new();
        let mut i: u32 = 0;
        while i < iovs_len
            invariant
                i <= iovs_len,
                array.fits(memory@.len()),
                array == ciovec_array(iovs, iovs_len),
                regions == array.elements(memory@),
                sources_fit(regions, memory@.len()),
                bufs@.len() == i,
                forall|j: int|
                    0 <= j < i ==> (#[trigger] bufs@[j])@ == memory@.subrange(
                        regions[j].buf.offset as int,
                        regions[j].buf.offset + regions[j].buf_len,
                    ),
            decreases iovs_len - i,
        {
            proof {
                array.lemma_holds(i);
            }
            let region = array.read(memory, i);
            assert(region == regions[i as int]);
            bufs.push(memory.read_bytes(region.buf.offset as usize, region.buf_len as usize));
            i = i + 1;
        }
        bufs
    }

    /// One buffer of zero bytes for each region, as long as the region.
    pub fn new_bufs(iovecs: &Vec<native::iovec>) -> (bufs: Vec<Vec<u8>>)
        ensures
            bufs@.len() == iovecs@.len(),
            forall|i: int| 0 <= i < iovecs@.len() ==>
                (#[trigger] bufs@[i])@.len() == iovecs@[i].buf_len,
            forall|i: int, j: int|
                0 <= i < iovecs@.len()
                    && 0 <= j < iovecs@[i].buf_len ==> (#[trigger] bufs@[i]@[j]) == 0u8,
    {
        let mut bufs: Vec<Vec<u8>> = Vec::new();
        let mut i: usize = 0;
        while i < iovecs.len()
            invariant
                i <= iovecs@.len(),
                bufs@.len() == i,
                forall|k: int| 0 <= k < i ==> (#[trigger] bufs@[k])@.len() == iovecs@[k].buf_len,
                forall|k: int, j: int|
                    0 <= k < i && 0 <= j < iovecs@[k].buf_len ==> (#[trigger] bufs@[k]@[j]) == 0u8,
            decreases iovecs@.len() - i,
        {
            bufs.push(vec![0u8; iovecs[i].buf_len as usize]);
            i = i + 1;
        }
        bufs
    }

    /// Copies the first `size` bytes of the buffers to guest memory, each
    /// buffer to its region, in turn. The regions are gone through until
    /// one cannot be filled, and each that is looked at must lie inside the
    /// memory. No byte outside of the regions changes.
    pub fn write_to_bufs(
        memory: &mut GuestMemory,
        iovecs: &Vec<native::iovec>,
        bufs: &Vec<Vec<u8>>,
        size: native::size,
    )
        requires
            iovecs@.len() == bufs@.len(),
            forall|i: int| 0 <= i < bufs@.len() ==>
                (#[trigger] bufs@[i])@.len() == iovecs@[i].buf_len,
            forall|i: int|
                0 <= i < iovecs@.len() && visited(iovecs@, i, size as nat) ==> region_fits(
                    #[trigger] iovecs@[i],
                    old(memory)@.len(),
                ),
        ensures
            final(memory)@ == scattered(
                old(memory)@,
                iovecs@,
                buffer_bytes(bufs@),
                size as nat,
                iovecs@.len(),
            ),
            final(memory)@.len() == old(memory)@.len(),
            forall|at: int|
                0 <= at < old(memory)@.len() && !in_regions(iovecs@, at)
                    ==> #[trigger] final(memory)@[at] == old(memory)@[at],
    {
        let ghost start = memory@;
        let ghost wire = buffer_bytes(bufs@);
        let mut left: u32 = size;
        let mut i: usize = 0;
        while i < iovecs.len()
            invariant
                i <= iovecs@.len(),
                iovecs@.len() == bufs@.len(),
                wire == buffer_bytes(bufs@),
                forall|k: int| 0 <= k < bufs@.len() ==>
                    (#[trigger] bufs@[k])@.len() == iovecs@[k].buf_len,
                forall|k: int|
                    0 <= k < iovecs@.len() && visited(iovecs@, k, size as nat) ==> region_fits(
                        #[trigger] iovecs@[k],
                        start.len(),
                    ),
                memory@.len() == start.len(),
                left <= size,
                size - left <= regions_size(iovecs@, i as nat),
                left > 0 ==> size - left == regions_size(iovecs@, i as nat),
                memory@ == scattered(start, iovecs@, wire, size as nat, i as nat),
            decreases iovecs@.len() - i,
        {
            let region = iovecs[i];
            let part: u32 = if left < region.buf_len {
                left
            } else {
                region.buf_len
            };
            proof {
                assert(wire[i as int] == bufs@[i as int]@);
                assert(part == share(iovecs@, i as int, size as nat));
                if part > 0 {
                    assert(visited(iovecs@, i as int, size as nat));
                    assert(region_fits(iovecs@[i as int], start.len()));
                }
            }
            if part > 0 {
                let buf: &Vec<u8> = &bufs[i];
                memory.write_bytes(region.buf.offset as usize, &buf[0..part as usize]);
            }
            left = left - part;
            i = i + 1;
        }
        proof {
            assert forall|k: int| 0 <= k < iovecs@.len() implies #[trigger] wire[k].len()
                == iovecs@[k].buf_len by {
                assert(wire[k] == bufs@[k]@);
            }
            assert forall|k: int|
                0 <= k < iovecs@.len() && share(iovecs@, k, size as nat) > 0 implies region_fits(
                #[trigger] iovecs@[k],
                start.len(),
            ) by {
                assert(visited(iovecs@, k, size as nat));
            }
            lemma_scattered_frame(start, iovecs@, wire, size as nat, iovecs@.len());
            assert forall|at: int|
                0 <= at < start.len() && !in_regions(iovecs@, at) implies #[trigger] memory@[at]
                == start[at] by {
                assert forall|k: int| 0 <= k < iovecs@.len()
                    implies !((#[trigger] iovecs@[k]).buf.offset
                    <= at < iovecs@[k].buf.offset + share(iovecs@, k, size as nat)) by {
                    assert(share(iovecs@, k, size as nat) <= iovecs@[k].buf_len);
                }
            }
        }
    }

    /// Copies the first `size` bytes of `buf` to the region of guest memory
    /// at `wasm_buf`, or the whole of it where it is shorter.
    pub fn write_to_buf(
        memory: &mut GuestMemory,
        wasm_buf: WasmSlicePtr<u8>,
        wasm_buf_len: native::size,
        buf: &Vec<u8>,
        size: native::size,
    )
        requires
            wasm_buf.offset + wasm_buf_len <= old(memory)@.len(),
            buf@.len() == wasm_buf_len,
        ensures
            final(memory)@ == splice(
                old(memory)@,
                wasm_buf.offset as int,
                buf@.subrange(
                    0,
                    if size < wasm_buf_len { size as int } else { wasm_buf_len as int },
                ),
            ),
            final(memory)@.len() == old(memory)@.len(),
    {
        let part: u32 = if size < wasm_buf_len {
            size
        } else {
            wasm_buf_len
        };
        memory.write_bytes(wasm_buf.offset as usize, &buf[0..part as usize]);
    }

    /// Writes the name of a preopened directory into the region of guest
    /// memory at `path`. A name that is longer than the region is an
    /// overflow, and nothing is written.
    pub fn write_dirname(
        memory: &mut GuestMemory,
        path: WasmSlicePtr<u8>,
        path_len: native::size,
        dirname: &[u8],
    ) -> (errno: native::errno)
        requires
            path.offset + path_len <= old(memory)@.len(),
        ensures
            errno == if dirname@.len() > path_len {
                native::ERRNO_OVERFLOW
            } else {
                native::ERRNO_SUCCESS
            },
            final(memory)@ == if dirname@.len() > path_len {
                old(memory)@
            } else {
                splice(old(memory)@, path.offset as int, dirname@)
            },
    {
        if dirname.len() > path_len as usize {
            native::ERRNO_OVERFLOW
        } else {
            memory.write_bytes(path.offset as usize, dirname);
            native::ERRNO_SUCCESS
        }
    }

    /// Writes the contents of a symbolic link into the region of guest
    /// memory at `buf`, as far as it has room, and returns how many bytes
    /// were written.
    pub fn write_link(
        memory: &mut GuestMemory,
        buf: WasmSlicePtr<u8>,
        buf_len: native::size,
        link: &[u8],
    ) -> (answer: (native::errno, native::size))
        requires
            buf.offset + buf_len <= old(memory)@.len(),
        ensures
            answer.0 == native::ERRNO_SUCCESS,
            answer.1 == if link@.len() < buf_len {
                link@.len()
            } else {
                buf_len as nat
            },
            final(memory)@ == splice(
                old(memory)@,
                buf.offset as int,
                link@.subrange(0, answer.1 as int),
            ),
    {
        let len: usize = if link.len() < buf_len as usize {
            link.len()
        } else {
            buf_len as usize
        };
        memory.write_bytes(buf.offset as usize, &link[0..len]);
        (native::ERRNO_SUCCESS, len as u32)
    }

    /// Reads the subscriptions of the array at `subscriptions` out of guest
    /// memory. Fails where one of them does not convert.
    pub fn read_subscriptions(
        memory: &GuestMemory,
        subscriptions: WasmSlicePtr<native::subscription>,
        nsubscriptions: native::size,
    ) -> (result: Result<Vec<Subscription>, ()>)
        requires
            subscriptions.in_bounds(memory@.len(), nsubscriptions),
        ensures
            match result {
                Ok(list) => Some(list@) == subscribed(
                    subscription_array(subscriptions, nsubscriptions).elements(memory@),
                ),
                Err(_) => subscribed(
                    subscription_array(subscriptions, nsubscriptions).elements(memory@),
                ) is None,
            },
    {
        let array = subscriptions.with(memory, nsubscriptions);
        let ghost natives = array.elements(memory@);
        let mut list: Vec<Subscription> = Vec::new();
        let mut i: u32 = 0;
        while i < nsubscriptions
            invariant
                i <= nsubscriptions,
                array.fits(memory@.len()),
                array == subscription_array(subscriptions, nsubscriptions),
                natives == array.elements(memory@),
                list@.len() == i,
                forall|j: int|
                    0 <= j < i ==> Subscription::lift(#[trigger] natives[j]) == Some(list@[j]),
            decreases nsubscriptions - i,
        {
            proof {
                array.lemma_holds(i);
            }
            let native = array.read(memory, i);
            assert(native == natives[i as int]);
            match Subscription::from_native(native) {
                Ok(subscription) => {
                    list.push(subscription);
                },
                Err(_) => {
                    assert(Subscription::lift(natives[i as int]) is None);
                    return Err(());
                },
            }
            i = i + 1;
        }
        proof {
            assert forall|j: int| 0 <= j < natives.len() implies Subscription::lift(
                #[trigger] natives[j],
            ) is Some by {
                assert(Subscription::lift(natives[j]) == Some(list@[j]));
            }
            assert(list@ =~= natives.map_values(
                |native: native::subscription| Subscription::lift(native).unwrap(),
            ));
        }
        Ok(list)
    }

    /// Writes the events into the array of `capacity` events at `out`, as
    /// many as it holds: events beyond the capacity are left out. Returns
    /// how many were written.
    pub fn write_events(
        memory: &mut GuestMemory,
        out: WasmSlicePtr<native::event>,
        capacity: native::size,
        events: &Vec<Event>,
    ) -> (answer: (native::errno, native::size))
        requires
            out.in_bounds(old(memory)@.len(), capacity),
        ensures
            answer.0 == native::ERRNO_SUCCESS,
            answer.1 == if events@.len() < capacity {
                events@.len()
            } else {
                capacity as nat
            },
            final(memory)@ == stored(
                old(memory)@,
                out.offset as int,
                events@.map_values(|event: Event| event.lower()),
                answer.1 as nat,
            ),
    {
        let array = out.with(memory, capacity);
        let ghost wire = events@.map_values(|event: Event| event.lower());
        let mut natives: Vec<native::event> = Vec::new();
        let mut i: usize = 0;
        while i < events.len()
            invariant
                i <= events@.len(),
                wire == events@.map_values(|event: Event| event.lower()),
                natives@ == wire.subrange(0, i as int),
                forall|j: int| 0 <= j < i ==> (#[trigger] natives@[j]).writable(),
            decreases events@.len() - i,
        {
            natives.push(events[i].to_native());
            i = i + 1;
            assert(natives@ =~= wire.subrange(0, i as int));
        }
        assert(natives@ =~= wire);
        let count = array.write_all(memory, &natives);
        (native::ERRNO_SUCCESS, count)
    }
}

} // verus!
