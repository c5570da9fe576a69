use wasihost::native;
use wasihost::primitives::{
    get_u16, get_u32, get_u64, i16_from_bits, i16_to_bits, i32_from_bits, i32_to_bits,
    i64_from_bits, i64_to_bits, i8_from_bits, i8_to_bits, put_u16, put_u32, put_u64,
};
use wasihost::ptr::{GuestMemory, WasmMemorySlice, WasmSlicePtr, WasmValuePtr};
use wasihost::wire::WasmValue;

#[test]
fn u32_is_little_endian() {
    let mut mem = vec![0u8; 8];
    put_u32(&mut mem, 2, 0x0403_0201);
    assert_eq!(mem, vec![0, 0, 1, 2, 3, 4, 0, 0]);
    assert_eq!(get_u32(&mem, 2), 0x0403_0201);
    assert_eq!(u32::read(&mem[2..6]), 0x0403_0201);
}

#[test]
fn u16_and_u64_are_little_endian() {
    let mut mem = vec![0xffu8; 12];
    put_u16(&mut mem, 1, 0x1234);
    assert_eq!(&mem[0..4], &[0xff, 0x34, 0x12, 0xff]);
    assert_eq!(get_u16(&mem, 1), 0x1234);
    put_u64(&mut mem, 4, 0x0807_0605_0403_0201);
    assert_eq!(&mem[4..12], &[1, 2, 3, 4, 5, 6, 7, 8]);
    assert_eq!(get_u64(&mem, 4), 0x0807_0605_0403_0201);
}

#[test]
fn integers_agree_with_std() {
    for value in [0u64, 1, 0xff, 0x1_0000, 0xdead_beef, u64::MAX, 0x8000_0000_0000_0000] {
        let mut mem = vec![0u8; 8];
        value.write(&mut mem);
        assert_eq!(mem, value.to_le_bytes().to_vec());
        assert_eq!(u64::read(&mem), value);
        let small = value as u32;
        let mut mem = vec![0u8; 4];
        small.write(&mut mem);
        assert_eq!(mem, small.to_le_bytes().to_vec());
        assert_eq!(u32::read(&mem), small);
        let tiny = value as u16;
        let mut mem = vec![0u8; 2];
        tiny.write(&mut mem);
        assert_eq!(mem, tiny.to_le_bytes().to_vec());
        assert_eq!(u16::read(&mem), tiny);
    }
}

#[test]
fn signed_integers_are_twos_complement() {
    for value in [0i64, 1, -1, i64::MIN, i64::MAX, -2, 1_000_000_007, -1_000_000_007] {
        assert_eq!(i64_to_bits(value), value as u64);
        assert_eq!(i64_from_bits(value as u64), value);
        let mut mem = vec![0u8; 8];
        value.write(&mut mem);
        assert_eq!(mem, value.to_le_bytes().to_vec());
        assert_eq!(i64::read(&mem), value);
    }
    for value in [0i32, 1, -1, i32::MIN, i32::MAX] {
        assert_eq!(i32_to_bits(value), value as u32);
        assert_eq!(i32_from_bits(value as u32), value);
        let mut mem = vec![0u8; 4];
        value.write(&mut mem);
        assert_eq!(i32::read(&mem), value);
    }
    for value in [0i16, 1, -1, i16::MIN, i16::MAX] {
        assert_eq!(i16_to_bits(value), value as u16);
        assert_eq!(i16_from_bits(value as u16), value);
        let mut mem = vec![0u8; 2];
        value.write(&mut mem);
        assert_eq!(i16::read(&mem), value);
    }
    for value in [0i8, 1, -1, i8::MIN, i8::MAX] {
        assert_eq!(i8_to_bits(value), value as u8);
        assert_eq!(i8_from_bits(value as u8), value);
        let mut mem = vec![0u8; 1];
        value.write(&mut mem);
        assert_eq!(i8::read(&mem), value);
    }
}

#[test]
fn sizes_and_strides_of_the_records() {
    assert_eq!((<u8 as WasmValue>::SIZE, <u8 as WasmValue>::ARRAY_OFFSET), (1, 1));
    assert_eq!((<u64 as WasmValue>::SIZE, <u64 as WasmValue>::ARRAY_OFFSET), (8, 8));
    assert_eq!((native::iovec::SIZE, native::iovec::ARRAY_OFFSET), (8, 8));
    assert_eq!((native::ciovec::SIZE, native::ciovec::ARRAY_OFFSET), (8, 8));
    assert_eq!((native::dirent::SIZE, native::dirent::ARRAY_OFFSET), (24, 24));
    assert_eq!((native::fdstat::SIZE, native::fdstat::ARRAY_OFFSET), (24, 24));
    assert_eq!((native::filestat::SIZE, native::filestat::ARRAY_OFFSET), (64, 64));
    assert_eq!((native::event::SIZE, native::event::ARRAY_OFFSET), (32, 32));
    assert_eq!((native::subscription::SIZE, native::subscription::ARRAY_OFFSET), (48, 48));
    assert_eq!((native::subscription_u::SIZE, native::subscription_u::ARRAY_OFFSET), (40, 40));
    assert_eq!((native::prestat::SIZE, native::prestat::ARRAY_OFFSET), (8, 8));
    assert_eq!(<WasmSlicePtr<u8> as WasmValue>::SIZE, 4);
    assert_eq!(<WasmValuePtr<u64> as WasmValue>::SIZE, 4);
}

#[test]
fn fdstat_layout() {
    let value = native::fdstat {
        fs_filetype: 2,
        fs_flags: 0x0102,
        fs_rights_base: 0x1122_3344_5566_7788,
        fs_rights_inheriting: 0x0000_0000_0000_00ff,
    };
    let mut mem = vec![0xaau8; 24];
    value.write(&mut mem);
    let expected: Vec<u8> = vec![
        2, 0xaa, 0x02, 0x01, 0xaa, 0xaa, 0xaa, 0xaa, 0x88, 0x77, 0x66, 0x55, 0x44, 0x33, 0x22,
        0x11, 0xff, 0, 0, 0, 0, 0, 0, 0,
    ];
    assert_eq!(mem, expected);
    assert_eq!(native::fdstat::read(&mem), value);
}

#[test]
fn dirent_layout() {
    let value = native::dirent { d_next: 7, d_ino: 0x0102, d_namlen: 5, d_type: 4 };
    let mut mem = vec![0u8; 24];
    value.write(&mut mem);
    assert_eq!(&mem[0..8], &7u64.to_le_bytes());
    assert_eq!(&mem[8..16], &0x0102u64.to_le_bytes());
    assert_eq!(&mem[16..20], &5u32.to_le_bytes());
    assert_eq!(mem[20], 4);
    assert_eq!(&mem[21..24], &[0, 0, 0]);
    assert_eq!(native::dirent::read(&mem), value);
}

#[test]
fn filestat_and_event_round_trip() {
    let stat = native::filestat {
        dev: 1,
        ino: 2,
        filetype: 3,
        nlink: 4,
        size: 5,
        atim: 6,
        mtim: 7,
        ctim: 8,
    };
    let mut mem = vec![0u8; 64];
    stat.write(&mut mem);
    assert_eq!(mem[16], 3);
    assert_eq!(&mem[56..64], &8u64.to_le_bytes());
    assert_eq!(native::filestat::read(&mem), stat);
    let event = native::event {
        userdata: 0xabcd,
        error: 28,
        type_: 1,
        fd_readwrite: native::event_fd_readwrite { nbytes: 99, flags: 1 },
    };
    let mut mem = vec![0u8; 32];
    event.write(&mut mem);
    assert_eq!(&mem[8..10], &28u16.to_le_bytes());
    assert_eq!(mem[10], 1);
    assert_eq!(&mem[16..24], &99u64.to_le_bytes());
    assert_eq!(&mem[24..26], &1u16.to_le_bytes());
    assert_eq!(native::event::read(&mem), event);
}

#[test]
fn union_tag_and_contents() {
    let value = native::prestat::dir(native::prestat_dir { pr_name_len: 0x0a0b });
    let mut mem = vec![0x55u8; 8];
    value.write(&mut mem);
    assert_eq!(mem, vec![0, 0x55, 0x55, 0x55, 0x0b, 0x0a, 0, 0]);
    assert_eq!(native::prestat::read(&mem), value);
    let clock = native::subscription_u::clock(native::subscription_clock {
        id: 1,
        timeout: 1000,
        precision: 10,
        flags: 1,
    });
    let mut mem = vec![0u8; 40];
    clock.write(&mut mem);
    assert_eq!(mem[0], 0);
    assert_eq!(&mem[8..12], &1u32.to_le_bytes());
    assert_eq!(&mem[16..24], &1000u64.to_le_bytes());
    assert_eq!(native::subscription_u::read(&mem), clock);
    let write = native::subscription_u::fd_write(native::subscription_fd_readwrite {
        file_descriptor: 9,
    });
    let mut mem = vec![0u8; 40];
    write.write(&mut mem);
    assert_eq!(mem[0], 2);
    assert_eq!(&mem[8..12], &9u32.to_le_bytes());
    assert_eq!(native::subscription_u::read(&mem), write);
}

#[test]
fn unknown_union_tag_reads_as_unknown() {
    let mut mem = vec![0u8; 8];
    mem[0] = 1;
    assert_eq!(native::prestat::read(&mem), native::prestat::Unknown);
    let mut mem = vec![0u8; 40];
    mem[0] = 3;
    assert_eq!(native::subscription_u::read(&mem), native::subscription_u::Unknown);
    mem[0] = 0xff;
    assert_eq!(native::subscription_u::read(&mem), native::subscription_u::Unknown);
}

#[test]
fn writing_what_was_read_keeps_the_bytes() {
    let bytes: Vec<u8> = (0..48).map(|i| (i * 7 + 3) as u8).collect();
    let mut window = bytes.clone();
    window[8] = 1;
    let before = window.clone();
    let value = native::subscription::read(&window);
    value.write(&mut window);
    assert_eq!(window, before);
    let mut window: Vec<u8> = bytes[0..24].to_vec();
    let before = window.clone();
    native::fdstat::read(&window).write(&mut window);
    assert_eq!(window, before);
}

#[test]
fn blank_values() {
    assert_eq!(u32::blank_value(), 0);
    assert_eq!(
        native::fdstat::blank_value(),
        native::fdstat { fs_filetype: 0, fs_flags: 0, fs_rights_base: 0, fs_rights_inheriting: 0 }
    );
    assert_eq!(
        native::prestat::blank_value(),
        native::prestat::dir(native::prestat_dir { pr_name_len: 0 })
    );
}

#[test]
fn pointers_read_and_write_memory() {
    let mut memory = GuestMemory::new(vec![0u8; 32]);
    let ptr: WasmValuePtr<u32> = WasmValuePtr::new(4);
    assert!(ptr.is_in_bounds(&memory));
    ptr.write(&mut memory, 0xdead_beef);
    assert_eq!(&memory.bytes[4..8], &[0xef, 0xbe, 0xad, 0xde]);
    assert_eq!(ptr.read(&memory), 0xdead_beef);
    let last: WasmValuePtr<u32> = WasmValuePtr::new(28);
    assert!(last.is_in_bounds(&memory));
    let beyond: WasmValuePtr<u32> = WasmValuePtr::new(29);
    assert!(!beyond.is_in_bounds(&memory));
    let far: WasmValuePtr<u32> = WasmValuePtr::new(u32::MAX);
    assert!(!far.is_in_bounds(&memory));
}

#[test]
fn slice_pointers_step_by_the_stride() {
    let base: WasmSlicePtr<native::fdstat> = WasmSlicePtr::new(100);
    assert_eq!(base.add(3).offset, 172);
    assert_eq!(base.get(2).offset, 148);
    let bytes: WasmSlicePtr<u8> = WasmSlicePtr::new(5);
    assert_eq!(bytes.add(7).offset, 12);
    let ptrs: WasmSlicePtr<WasmSlicePtr<u8>> = WasmSlicePtr::new(8);
    assert_eq!(ptrs.add(2).offset, 16);
}

#[test]
fn memory_slices_are_bounds_checked() {
    let mut memory = GuestMemory::new(vec![0u8; 64]);
    let base: WasmSlicePtr<native::iovec> = WasmSlicePtr::new(16);
    assert!(base.is_in_bounds(&memory, 6));
    assert!(!base.is_in_bounds(&memory, 7));
    let slice: WasmMemorySlice<native::iovec> = base.with(&memory, 6);
    assert!(slice.has(5));
    assert!(!slice.has(6));
    let value = native::iovec { buf: WasmSlicePtr::new(0x1234), buf_len: 77 };
    slice.write(&mut memory, 2, value);
    assert_eq!(&memory.bytes[32..36], &0x1234u32.to_le_bytes());
    assert_eq!(&memory.bytes[36..40], &77u32.to_le_bytes());
    let back = slice.read(&memory, 2);
    assert_eq!(back.buf.offset, 0x1234);
    assert_eq!(back.buf_len, 77);
    let all = slice.read_all(&memory);
    assert_eq!(all.len(), 6);
    assert_eq!(all[2].buf_len, 77);
    assert_eq!(all[3].buf_len, 0);
}

#[test]
fn pointers_stand_for_webassembly_integers() {
    let ptr: WasmSlicePtr<u8> = WasmSlicePtr::from_native(-1);
    assert_eq!(ptr.offset, u32::MAX);
    assert_eq!(ptr.to_native(), -1);
    let ptr: WasmValuePtr<u32> = WasmValuePtr::from_native(16);
    assert_eq!(ptr.offset, 16);
    assert_eq!(ptr.to_native(), 16);
    let high: WasmValuePtr<u32> = WasmValuePtr::new(0x8000_0000);
    assert_eq!(high.to_native(), i32::MIN);
}

#[test]
fn memory_ranges() {
    let memory = GuestMemory::zeroed(10);
    assert_eq!(memory.len(), 10);
    assert!(memory.contains_range(0, 10));
    assert!(memory.contains_range(10, 0));
    assert!(!memory.contains_range(11, 0));
    assert!(!memory.contains_range(5, 6));
    assert!(!memory.contains_range(0, u64::MAX));
    let mut memory = GuestMemory::new((0..10).collect());
    assert_eq!(memory.read_bytes(3, 4), vec![3, 4, 5, 6]);
    memory.write_bytes(8, &[42, 43]);
    memory.write_byte(0, 9);
    assert_eq!(memory.bytes, vec![9, 1, 2, 3, 4, 5, 6, 7, 42, 43]);
}
